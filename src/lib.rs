//! Guest side of a host-target interface: a single-word packet codec and the
//! polling protocol that carries packets over two shared memory words.
pub mod channel;
pub mod codec;
pub mod ops;
pub mod registers;
pub mod writer;
