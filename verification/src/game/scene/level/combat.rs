pub mod damage;
