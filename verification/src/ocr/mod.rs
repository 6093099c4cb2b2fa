pub mod capture;
pub mod parser;
pub mod recognize;
