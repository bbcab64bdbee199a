pub mod capabilities;
