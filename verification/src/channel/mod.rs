pub mod atomic_waker;
pub mod registry;
pub mod spsc;
pub mod watch;
pub mod oneshot;
