pub mod article;
pub mod json;
pub mod scorer;
pub mod search;
pub mod store;
pub mod text;
