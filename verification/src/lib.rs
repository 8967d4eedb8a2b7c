pub mod le;
pub mod wav;
