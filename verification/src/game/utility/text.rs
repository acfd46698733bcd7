use vstd::prelude::*;

verus! {

/// Whether `c` has the Unicode `White_Space` property (what `char::is_whitespace` reports):
/// tab, line feed, vertical tab, form feed, carriage return, space, next line, no-break space,
/// ogham space mark, the spaces from en quad to hair space, line separator, paragraph
/// separator, narrow no-break space, medium mathematical space and ideographic space
pub open spec fn is_white_space(c: char) -> bool {
    let u = c as u32;
    ||| 0x09 <= u <= 0x0d
    ||| u == 0x20
    ||| u == 0x85
    ||| u == 0xa0
    ||| u == 0x1680
    ||| 0x2000 <= u <= 0x200a
    ||| u == 0x2028
    ||| u == 0x2029
    ||| u == 0x202f
    ||| u == 0x205f
    ||| u == 0x3000
}

/// Whether `c` is whitespace: one of the code points of the Unicode `White_Space` property
fn char_is_whitespace(c: char) -> (white: bool)
    ensures
        white == is_white_space(c),
{
    let u = c as u32;
    (0x09 <= u && u <= 0x0d) || u == 0x20 || u == 0x85 || u == 0xa0 || u == 0x1680 || (0x2000
        <= u && u <= 0x200a) || u == 0x2028 || u == 0x2029 || u == 0x202f || u == 0x205f || u
        == 0x3000
}

/// `s` with leading whitespace removed
pub open spec fn trim_start(s: Seq<char>) -> Seq<char>
    decreases s.len(),
{
    if s.len() > 0 && is_white_space(s[0]) {
        trim_start(s.drop_first())
    } else {
        s
    }
}

/// `s` with trailing whitespace removed
pub open spec fn trim_end(s: Seq<char>) -> Seq<char>
    decreases s.len(),
{
    if s.len() > 0 && is_white_space(s.last()) {
        trim_end(s.drop_last())
    } else {
        s
    }
}

/// `s` with leading and trailing whitespace removed, as `str::trim` documents it
pub open spec fn trimmed(s: Seq<char>) -> Seq<char> {
    trim_end(trim_start(s))
}

/// Remove leading and trailing whitespace
pub fn trim(s: &str) -> (t: &str)
    ensures
        t@ == trimmed(s@),
{
    let n = s.unicode_len();
    let mut start: usize = 0;
    assert(s@.subrange(0, n as int) =~= s@);
    while start < n && char_is_whitespace(s.get_char(start))
        invariant
            n == s@.len(),
            start <= n,
            trim_start(s@) == trim_start(s@.subrange(start as int, n as int)),
        decreases n - start,
    {
        assert(s@.subrange(start as int, n as int).drop_first() =~= s@.subrange(
            start + 1,
            n as int,
        ));
        start = start + 1;
    }
    assert(trim_start(s@) == s@.subrange(start as int, n as int));
    let mut end: usize = n;
    while end > start && char_is_whitespace(s.get_char(end - 1))
        invariant
            n == s@.len(),
            start <= end <= n,
            trim_start(s@) == s@.subrange(start as int, n as int),
            trim_end(s@.subrange(start as int, n as int)) == trim_end(
                s@.subrange(start as int, end as int),
            ),
        decreases end - start,
    {
        assert(s@.subrange(start as int, end as int).drop_last() =~= s@.subrange(
            start as int,
            end - 1,
        ));
        end = end - 1;
    }
    s.substring_char(start, end)
}

/// What `str::to_lowercase` gives for `s`
pub uninterp spec fn lowercased(s: Seq<char>) -> Seq<char>;

/// `str::to_lowercase`: the lowercase equivalent of `s` by the Unicode `Lowercase` mapping
/// (with the final-sigma rule); the contract names the result without spelling the mapping out.
#[verifier::external_body]
pub(crate) fn to_lowercase(s: &str) -> (lower: String)
    ensures
        lower@ == lowercased(s@),
{
    s.to_lowercase()
}

/// Compare two strings character by character
pub fn str_eq(a: &str, b: &str) -> (equal: bool)
    ensures
        equal == (a@ == b@),
{
    let n = a.unicode_len();
    if n != b.unicode_len() {
        return false;
    }
    let mut i: usize = 0;
    while i < n
        invariant
            n == a@.len(),
            n == b@.len(),
            i <= n,
            forall|j: int| 0 <= j < i ==> a@[j] == b@[j],
        decreases n - i,
    {
        if a.get_char(i) != b.get_char(i) {
            return false;
        }
        i = i + 1;
    }
    assert(a@ =~= b@);
    true
}

/// The pieces of `s` between occurrences of `delimiter`, as `str::split` with a `char`
/// pattern yields them: one more piece than there are delimiters
pub open spec fn split_pieces(s: Seq<char>, delimiter: char) -> Seq<Seq<char>>
    decreases s.len(),
{
    if s.len() == 0 {
        seq![Seq::<char>::empty()]
    } else {
        let pieces = split_pieces(s.drop_last(), delimiter);
        if s.last() == delimiter {
            pieces.push(Seq::<char>::empty())
        } else {
            pieces.update(pieces.len() - 1, pieces.last().push(s.last()))
        }
    }
}

/// `split_pieces` always yields at least one piece
pub proof fn lemma_split_pieces_nonempty(s: Seq<char>, delimiter: char)
    ensures
        split_pieces(s, delimiter).len() >= 1,
    decreases s.len(),
{
    if s.len() > 0 {
        lemma_split_pieces_nonempty(s.drop_last(), delimiter);
    }
}

/// Split `s` at every occurrence of `delimiter`
pub fn split_char(s: &str, delimiter: char) -> (pieces: Vec<String>)
    ensures
        pieces@.map_values(|p: String| p@) == split_pieces(s@, delimiter),
{
    let n = s.unicode_len();
    let mut pieces: Vec<String> = Vec::new();
    let mut start: usize = 0;
    let mut i: usize = 0;
    assert(s@.take(0) =~= Seq::<char>::empty());
    assert(s@.subrange(0, 0) =~= Seq::<char>::empty());
    while i < n
        invariant
            n == s@.len(),
            start <= i <= n,
            split_pieces(s@.take(i as int), delimiter) == pieces@.map_values(|p: String| p@).push(
                s@.subrange(start as int, i as int),
            ),
        decreases n - i,
    {
        let c = s.get_char(i);
        let ghost before = pieces@.map_values(|p: String| p@);
        assert(s@.take(i + 1).drop_last() =~= s@.take(i as int));
        assert(s@.take(i + 1).last() == c);
        if c == delimiter {
            let piece = String::from_str(s.substring_char(start, i));
            pieces.push(piece);
            assert(pieces@.map_values(|p: String| p@) =~= before.push(
                s@.subrange(start as int, i as int),
            ));
            start = i + 1;
            assert(s@.subrange(start as int, i + 1) =~= Seq::<char>::empty());
        } else {
            assert(s@.subrange(start as int, i + 1) =~= s@.subrange(start as int, i as int).push(
                c,
            ));
        }
        i = i + 1;
    }
    assert(s@.take(n as int) =~= s@);
    let last = String::from_str(s.substring_char(start, n));
    let ghost before = pieces@.map_values(|p: String| p@);
    pieces.push(last);
    assert(pieces@.map_values(|p: String| p@) =~= before.push(s@.subrange(start as int, n as int)));
    pieces
}

/// The pieces joined back together with `delimiter` between them
pub open spec fn join_pieces(pieces: Seq<Seq<char>>, delimiter: char) -> Seq<char>
    decreases pieces.len(),
{
    if pieces.len() <= 1 {
        if pieces.len() == 1 {
            pieces[0]
        } else {
            Seq::<char>::empty()
        }
    } else {
        join_pieces(pieces.drop_last(), delimiter).push(delimiter) + pieces.last()
    }
}

/// Splitting at a delimiter is undone by joining the pieces with it, and no piece holds the
/// delimiter
pub proof fn lemma_split_join(s: Seq<char>, delimiter: char)
    ensures
        join_pieces(split_pieces(s, delimiter), delimiter) == s,
        forall|i: int, j: int|
            0 <= i < split_pieces(s, delimiter).len() && 0 <= j < split_pieces(s, delimiter)[i].len()
                ==> split_pieces(s, delimiter)[i][j] != delimiter,
    decreases s.len(),
{
    if s.len() > 0 {
        let rest = s.drop_last();
        let pieces = split_pieces(rest, delimiter);
        lemma_split_join(rest, delimiter);
        lemma_split_pieces_nonempty(rest, delimiter);
        if s.last() == delimiter {
            let split = pieces.push(Seq::<char>::empty());
            assert(split.drop_last() =~= pieces);
            assert(join_pieces(split, delimiter) =~= s);
            assert forall|i: int, j: int|
                0 <= i < split.len() && 0 <= j < split[i].len() implies split[i][j] != delimiter by {
                assert(split[i] == pieces[i]);
            }
        } else {
            let last = pieces.len() - 1;
            let split = pieces.update(last, pieces.last().push(s.last()));
            assert(s =~= rest.push(s.last()));
            if pieces.len() == 1 {
                assert(split.len() == 1);
                assert(join_pieces(split, delimiter) == split[0]);
                assert(join_pieces(pieces, delimiter) == pieces[0]);
                assert(join_pieces(split, delimiter) =~= s);
            } else {
                assert(split.drop_last() =~= pieces.drop_last());
                assert(join_pieces(split, delimiter) =~= s);
            }
            assert forall|i: int, j: int|
                0 <= i < split.len() && 0 <= j < split[i].len() implies split[i][j] != delimiter by {
                if i == last && j == split[i].len() - 1 {
                    assert(split[i][j] == s.last());
                } else if i == last {
                    assert(split[i][j] == pieces[i][j]);
                }
            }
        }
    }
}

/// `piece` without one trailing carriage return
pub open spec fn strip_carriage_return(piece: Seq<char>) -> Seq<char> {
    if piece.len() > 0 && piece.last() == '\r' {
        piece.drop_last()
    } else {
        piece
    }
}

/// The lines of `s` as `str::lines` documents them: split at `\n` or `\r\n`, terminators
/// left out, and a final line ending optional
pub open spec fn lines_of(s: Seq<char>) -> Seq<Seq<char>> {
    let pieces = split_pieces(s, '\n');
    let last = pieces.len() - 1;
    let count = if pieces[last].len() == 0 {
        last
    } else {
        pieces.len() as int
    };
    Seq::new(
        count as nat,
        |i: int|
            if i < last {
                strip_carriage_return(pieces[i])
            } else {
                pieces[i]
            },
    )
}

/// No line holds a line feed
pub proof fn lemma_lines_hold_no_line_feed(s: Seq<char>)
    ensures
        forall|i: int, j: int|
            0 <= i < lines_of(s).len() && 0 <= j < lines_of(s)[i].len() ==> lines_of(s)[i][j]
                != '\n',
{
    lemma_split_join(s, '\n');
    lemma_split_pieces_nonempty(s, '\n');
    let pieces = split_pieces(s, '\n');
    assert forall|i: int, j: int|
        0 <= i < lines_of(s).len() && 0 <= j < lines_of(s)[i].len() implies lines_of(s)[i][j]
            != '\n' by {
        assert(lines_of(s)[i][j] == pieces[i][j]);
    }
}

/// Trimming text that is already trimmed changes nothing
pub proof fn lemma_trim_idempotent(s: Seq<char>)
    ensures
        trimmed(trimmed(s)) == trimmed(s),
{
    lemma_trim_start_settled(s);
    lemma_trim_end_keeps_start(trim_start(s));
    lemma_trim_end_settled(trim_start(s));
    let t = trimmed(s);
    assert(trim_start(t) == t);
}

/// Trimming the start leaves no leading whitespace
proof fn lemma_trim_start_settled(s: Seq<char>)
    ensures
        trim_start(s).len() > 0 ==> !is_white_space(trim_start(s)[0]),
    decreases s.len(),
{
    if s.len() > 0 && is_white_space(s[0]) {
        lemma_trim_start_settled(s.drop_first());
    }
}

/// Trimming the end leaves no trailing whitespace
proof fn lemma_trim_end_settled(s: Seq<char>)
    ensures
        trim_end(s).len() > 0 ==> !is_white_space(trim_end(s).last()),
        trim_end(trim_end(s)) == trim_end(s),
    decreases s.len(),
{
    if s.len() > 0 && is_white_space(s.last()) {
        lemma_trim_end_settled(s.drop_last());
    }
}

/// Trimming the end of text that starts with no whitespace keeps it so, and keeps its start
proof fn lemma_trim_end_keeps_start(s: Seq<char>)
    requires
        s.len() > 0 ==> !is_white_space(s[0]),
    ensures
        trim_end(s).len() > 0 ==> !is_white_space(trim_end(s)[0]),
        trim_start(trim_end(s)) == trim_end(s),
    decreases s.len(),
{
    if s.len() > 0 && is_white_space(s.last()) {
        if s.len() > 1 {
            assert(s.drop_last()[0] == s[0]);
        }
        lemma_trim_end_keeps_start(s.drop_last());
    }
}

/// Split text into its lines
pub fn split_lines(s: &str) -> (lines: Vec<String>)
    ensures
        lines@.map_values(|l: String| l@) == lines_of(s@),
{
    let pieces = split_char(s, '\n');
    proof {
        lemma_split_pieces_nonempty(s@, '\n');
    }
    let ghost views = pieces@.map_values(|p: String| p@);
    assert(views.len() == pieces.len());
    let last = pieces.len() - 1;
    let count = if pieces[last].unicode_len() == 0 {
        last
    } else {
        pieces.len()
    };
    let mut lines: Vec<String> = Vec::new();
    let mut i: usize = 0;
    while i < count
        invariant
            views == pieces@.map_values(|p: String| p@),
            views == split_pieces(s@, '\n'),
            last == pieces.len() - 1,
            count <= pieces.len(),
            count == (if views[last as int].len() == 0 {
                last as int
            } else {
                pieces.len() as int
            }),
            i <= count,
            lines@.map_values(|l: String| l@) == lines_of(s@).take(i as int),
        decreases count - i,
    {
        let piece = pieces[i].as_str();
        assert(piece@ == views[i as int]);
        let len = piece.unicode_len();
        let line = if i < last && len > 0 && piece.get_char(len - 1) == '\r' {
            String::from_str(piece.substring_char(0, len - 1))
        } else {
            String::from_str(piece)
        };
        let ghost before = lines@.map_values(|l: String| l@);
        lines.push(line);
        assert(line@ == lines_of(s@)[i as int]);
        assert(lines@.map_values(|l: String| l@) =~= before.push(line@));
        assert(before.push(line@) =~= lines_of(s@).take(i + 1));
        i = i + 1;
    }
    assert(lines_of(s@).take(count as int) =~= lines_of(s@));
    lines
}

/// Whether `c` is one of the ASCII digits `0`..=`9`
pub open spec fn is_ascii_digit(c: char) -> bool {
    '0' <= c <= '9'
}

/// The value of a run of ASCII decimal digits
pub open spec fn digits_value(digits: Seq<char>) -> nat
    decreases digits.len(),
{
    if digits.len() == 0 {
        0
    } else {
        digits_value(digits.drop_last()) * 10 + ((digits.last() as int) - ('0' as int)) as nat
    }
}

/// The digits of an unsigned number: `s` without one leading `+`
pub open spec fn unsigned_digits(s: Seq<char>) -> Seq<char> {
    if s.len() > 0 && s[0] == '+' {
        s.drop_first()
    } else {
        s
    }
}

/// Whether `s` is the text of a `u32` as `u32::from_str` accepts it: an optional `+`
/// followed by at least one ASCII digit, with a value that fits in a `u32`
pub open spec fn is_u32_text(s: Seq<char>) -> bool {
    let digits = unsigned_digits(s);
    &&& digits.len() > 0
    &&& forall|i: int| 0 <= i < digits.len() ==> is_ascii_digit(#[trigger] digits[i])
    &&& digits_value(digits) <= u32::MAX
}

/// The message of the error that `u32::from_str` reports for `s`
pub uninterp spec fn u32_parse_error(s: Seq<char>) -> Seq<char>;

/// `str::parse::<u32>`: succeeds exactly on an optional `+` followed by decimal digits whose
/// value fits in a `u32`, and yields that value; the failure's message (the `Display` text of
/// `ParseIntError`) is named, not spelled out.
#[verifier::external_body]
pub(crate) fn parse_u32(s: &str) -> (parsed: Result<u32, String>)
    ensures
        parsed is Ok <==> is_u32_text(s@),
        parsed matches Ok(value) ==> value == digits_value(unsigned_digits(s@)),
        parsed matches Err(message) ==> message@ == u32_parse_error(s@),
{
    match s.parse::<u32>() {
        Ok(value) => Ok(value),
        Err(err) => Err(err.to_string()),
    }
}

/// Whether `c` ends a line
pub open spec fn is_newline(c: char) -> bool {
    c == '\n' || c == '\r'
}

/// `s` with every newline and carriage return removed
pub open spec fn without_newlines(s: Seq<char>) -> Seq<char>
    decreases s.len(),
{
    if s.len() == 0 {
        s
    } else if is_newline(s.last()) {
        without_newlines(s.drop_last())
    } else {
        without_newlines(s.drop_last()).push(s.last())
    }
}

/// Remove every newline and carriage return from `s`
pub fn strip_newlines(s: &str) -> (stripped: String)
    ensures
        stripped@ == without_newlines(s@),
{
    let n = s.unicode_len();
    let mut stripped = String::new();
    let mut i: usize = 0;
    assert(s@.take(0) =~= Seq::<char>::empty());
    while i < n
        invariant
            n == s@.len(),
            i <= n,
            stripped@ == without_newlines(s@.take(i as int)),
        decreases n - i,
    {
        let c = s.get_char(i);
        assert(s@.take(i + 1).drop_last() =~= s@.take(i as int));
        assert(s@.take(i + 1).last() == c);
        if c != '\n' && c != '\r' {
            let one = s.substring_char(i, i + 1);
            assert(one@ =~= seq![c]);
            stripped.append(one);
            assert(stripped@ =~= without_newlines(s@.take(i as int)).push(c));
        }
        i = i + 1;
    }
    assert(s@.take(n as int) =~= s@);
    stripped
}

/// The keyword a property value stands for: trimmed, then lowercased
pub open spec fn keyword(value: Seq<char>) -> Seq<char> {
    lowercased(trimmed(value))
}

/// A `Result` with its error message taken by its view
pub open spec fn err_view<T>(result: Result<T, String>) -> Result<T, Seq<char>> {
    match result {
        Ok(value) => Ok(value),
        Err(message) => Err(message@),
    }
}

/// A `Result` of strings taken by the views of both sides
pub open spec fn text_result(result: Result<String, String>) -> Result<Seq<char>, Seq<char>> {
    match result {
        Ok(text) => Ok(text@),
        Err(message) => Err(message@),
    }
}

/// A message made of a fixed prefix and a detail
pub fn message_with(prefix: &str, detail: &str) -> (message: String)
    ensures
        message@ == prefix@ + detail@,
{
    let mut message = String::from_str(prefix);
    message.append(detail);
    message
}

/// The ASCII digit for `d`
pub open spec fn digit_char(d: nat) -> char {
    if d == 0 {
        '0'
    } else if d == 1 {
        '1'
    } else if d == 2 {
        '2'
    } else if d == 3 {
        '3'
    } else if d == 4 {
        '4'
    } else if d == 5 {
        '5'
    } else if d == 6 {
        '6'
    } else if d == 7 {
        '7'
    } else if d == 8 {
        '8'
    } else {
        '9'
    }
}

/// The decimal text of `value`, as `Display` writes an unsigned integer
pub open spec fn decimal_text(value: nat) -> Seq<char>
    decreases value,
{
    if value < 10 {
        seq![digit_char(value)]
    } else {
        decimal_text(value / 10).push(digit_char(value % 10))
    }
}

/// The text of a single decimal digit
fn digit_str(d: u64) -> (text: &'static str)
    requires
        d < 10,
    ensures
        text@ == seq![digit_char(d as nat)],
{
    proof {
        reveal_strlit("0");
        reveal_strlit("1");
        reveal_strlit("2");
        reveal_strlit("3");
        reveal_strlit("4");
        reveal_strlit("5");
        reveal_strlit("6");
        reveal_strlit("7");
        reveal_strlit("8");
        reveal_strlit("9");
    }
    if d == 0 {
        "0"
    } else if d == 1 {
        "1"
    } else if d == 2 {
        "2"
    } else if d == 3 {
        "3"
    } else if d == 4 {
        "4"
    } else if d == 5 {
        "5"
    } else if d == 6 {
        "6"
    } else if d == 7 {
        "7"
    } else if d == 8 {
        "8"
    } else {
        "9"
    }
}

/// Append the decimal text of `value` to `text`
pub fn push_decimal(text: &mut String, value: u64)
    ensures
        final(text)@ == old(text)@ + decimal_text(value as nat),
    decreases value,
{
    if value >= 10 {
        push_decimal(text, value / 10);
    }
    text.append(digit_str(value % 10));
    assert(decimal_text(value as nat) =~= if value < 10 {
        seq![digit_char(value as nat)]
    } else {
        decimal_text((value / 10) as nat).push(digit_char((value % 10) as nat))
    });
}

/// Removing newlines leaves no line feed nor carriage return, keeps every other character in its
/// order, and leaves a text without newlines as it was
pub proof fn lemma_newlines_removed(s: Seq<char>)
    ensures
        forall|i: int| 0 <= i < without_newlines(s).len() ==> !is_newline(#[trigger] without_newlines(s)[i]),
        (forall|i: int| 0 <= i < s.len() ==> !is_newline(#[trigger] s[i])) ==> without_newlines(s) == s,
        without_newlines(s).len() <= s.len(),
    decreases s.len(),
{
    if s.len() > 0 {
        lemma_newlines_removed(s.drop_last());
        let rest = without_newlines(s.drop_last());
        if !is_newline(s.last()) {
            assert forall|i: int| 0 <= i < rest.push(s.last()).len() implies !is_newline(
                #[trigger] rest.push(s.last())[i],
            ) by {
                if i < rest.len() {
                    assert(rest.push(s.last())[i] == rest[i]);
                }
            }
        }
        if forall|i: int| 0 <= i < s.len() ==> !is_newline(#[trigger] s[i]) {
            assert forall|i: int| 0 <= i < s.drop_last().len() implies !is_newline(
                #[trigger] s.drop_last()[i],
            ) by {
                assert(s.drop_last()[i] == s[i]);
            }
            assert(s.drop_last().push(s.last()) =~= s);
        }
    }
}

} // verus!
