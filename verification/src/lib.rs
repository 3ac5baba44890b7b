//! Atomic scalar cells: signed and unsigned integers of four widths, the two
//! pointer-sized integers and a boolean, each with load, store, swap,
//! compare-exchange and the fetch operations, all sequentially consistent.
//!
//! Every cell is one `std::sync::atomic` value, and every operation is one
//! sequentially consistent call on it: the method of the same name, and
//! `fetch_update` for `fetch_add_mod`. The contracts say what an operation
//! does to the value that the cell holds; to be able to say it, an operation
//! that changes the cell takes it by `&mut`, so that no other holder can
//! change the cell between two calls.

pub mod arith;
pub mod atomic_bool;
pub mod atomic_i16;
pub mod atomic_i32;
pub mod atomic_i64;
pub mod atomic_i8;
pub mod atomic_isize;
pub mod atomic_u16;
pub mod atomic_u32;
pub mod atomic_u64;
pub mod atomic_u8;
pub mod atomic_usize;
pub mod status;

pub use atomic_bool::AtomicBool;
pub use atomic_i16::AtomicI16;
pub use atomic_i32::AtomicI32;
pub use atomic_i64::AtomicI64;
pub use atomic_i8::AtomicI8;
pub use atomic_isize::AtomicIsize;
pub use atomic_u16::AtomicU16;
pub use atomic_u32::AtomicU32;
pub use atomic_u64::AtomicU64;
pub use atomic_u8::AtomicU8;
pub use atomic_usize::AtomicUsize;
pub use status::Status;
