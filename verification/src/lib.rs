//! A bounds-checked, cursor-addressed byte buffer sized to hold one
//! maximum-size binary protocol message (512 bytes). Sequential and
//! random-access reads are rejected once their target index reaches the
//! capacity; moving the cursor itself is never validated eagerly, so a
//! misplaced cursor is only caught by the next read.

pub mod buffer;
