pub mod backends;
pub mod discovery;
pub mod imports;
pub mod syntax;
pub mod typescript;
