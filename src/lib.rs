//! A decoder for compiled JVM class files.
//!
//! Bytes go in through a [`byte_reader::ByteReader`]; out comes a
//! [`class_file::ClassFile`]: the constant pool, the access flags, the fields,
//! the methods and the attribute tree. Every decoding step has a spec function
//! over the input bytes, and each reader is proved to return exactly what its
//! spec function gives.

pub mod access_flags;
pub mod annotation;
pub mod attribute;
pub mod byte_reader;
pub mod class_file;
pub mod constant_pool;
pub mod disassembler;
pub mod error;
pub mod field;
pub mod method;
pub mod mutf8;
pub mod stack_map;
pub mod utils;
