pub mod edit;
pub mod init_pool;
pub mod liquidity;
pub mod swap;
