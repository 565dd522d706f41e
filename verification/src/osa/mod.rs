//! Memory for transfer data: buffers, pool constants and a semaphore.

pub mod consts;
pub mod err;
pub mod pool_buffer;
pub mod semaphore;
