pub mod init_pool;
pub mod stake;
pub mod unstake;
pub mod update_pool;
