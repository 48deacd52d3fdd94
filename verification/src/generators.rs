pub mod five;
pub mod four;
pub mod seven;
pub mod six;
pub mod three;
pub mod validator;
