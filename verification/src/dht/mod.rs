pub mod bbdht;
