//! Precompiled shader binaries.
//!
//! A shader stage arrives as the bytes of a SPIR-V module. Before such a
//! module is handed to a driver, its container is examined: the length must be
//! a whole, positive number of 32-bit words, and the first word must be the
//! SPIR-V magic number, stored in either byte order. A module that passes is
//! held as words in the order in which its first word reads as the magic
//! number; one that fails is reported with the reason.

use crate::words::word_at;
use vstd::endian::Endian;
use vstd::prelude::*;

verus! {

/// The first word of every SPIR-V module.
pub const SPIRV_MAGIC: u32 = 0x0723_0203;

/// The name under which both stages export their entry function.
pub const ENTRY_POINT: &'static str = "main";

/// Why a byte string is not accepted as a SPIR-V module.
#[derive(Debug, Clone, Copy, PartialEq, Eq, Structural)]
pub enum ShaderError {
    /// The length is not a multiple of four bytes.
    RaggedLength,
    /// There are no bytes at all.
    Empty,
    /// The first word is not the magic number in either byte order.
    BadMagic,
}

/// The byte order in which the first word of `bytes` is the magic number, if
/// there is one.
pub open spec fn module_order(bytes: Seq<u8>) -> Option<Endian> {
    if bytes.len() < 4 {
        None
    } else if word_at(bytes, 0, Endian::Little) == SPIRV_MAGIC {
        Some(Endian::Little)
    } else if word_at(bytes, 0, Endian::Big) == SPIRV_MAGIC {
        Some(Endian::Big)
    } else {
        None
    }
}

/// What is wrong with the container of `bytes`, if anything. The length is
/// judged first, then the magic number.
pub open spec fn container_fault(bytes: Seq<u8>) -> Option<ShaderError> {
    if bytes.len() % 4 != 0 {
        Some(ShaderError::RaggedLength)
    } else if bytes.len() == 0 {
        Some(ShaderError::Empty)
    } else if module_order(bytes) is None {
        Some(ShaderError::BadMagic)
    } else {
        None
    }
}

/// The words of a module whose container is sound: every four bytes make one
/// word, read in the order that the magic number reveals.
pub open spec fn module_words(bytes: Seq<u8>) -> Seq<u32>
    recommends
        container_fault(bytes) is None,
{
    Seq::new(
        (bytes.len() / 4) as nat,
        |i: int| word_at(bytes, i, module_order(bytes).unwrap()),
    )
}

/// Decodes a module with `wgpu::util::make_spirv_raw`.
///
/// That function stops the program when the length is not a multiple of four,
/// when the input is empty, and when the first word is the magic number in
/// neither byte order; the precondition leaves those inputs out. Otherwise it
/// reads the bytes as words of this machine, and reverses the bytes of every
/// word if the first one came out as the reversed magic number. Either way
/// each word is the one that its four bytes spell in the order in which the
/// first word is the magic number, which is what the postcondition says.
#[verifier::external_body]
fn spirv_words(bytes: &[u8]) -> (words: Vec<u32>)
    requires
        container_fault(bytes@) is None,
    ensures
        words@ == module_words(bytes@),
{
    wgpu::util::make_spirv_raw(bytes).into_owned()
}

/// A SPIR-V module whose container has been examined.
#[derive(Debug, PartialEq, Eq)]
pub struct ShaderBinary {
    words: Vec<u32>,
}

impl View for ShaderBinary {
    type V = Seq<u32>;

    closed spec fn view(&self) -> Seq<u32> {
        self.words@
    }
}

/// True of the words of a module: there is at least one, and the first is the
/// magic number.
pub open spec fn starts_with_magic(words: Seq<u32>) -> bool {
    &&& words.len() > 0
    &&& words[0] == SPIRV_MAGIC
}

impl ShaderBinary {
    /// A module is never empty and starts with the magic number.
    pub open spec fn wf(&self) -> bool {
        starts_with_magic(self@)
    }

    #[verifier::type_invariant]
    closed spec fn inv(&self) -> bool {
        self.wf()
    }

    /// Examines the container of `bytes` and decodes the module.
    pub fn parse(bytes: &[u8]) -> (parsed: Result<ShaderBinary, ShaderError>)
        ensures
            match parsed {
                Ok(module) => {
                    &&& container_fault(bytes@) is None
                    &&& module@ == module_words(bytes@)
                    &&& module.wf()
                },
                Err(fault) => container_fault(bytes@) == Some(fault),
            },
    {
        if bytes.len() % 4 != 0 {
            return Err(ShaderError::RaggedLength);
        }
        if bytes.len() == 0 {
            return Err(ShaderError::Empty);
        }
        let b0: u8 = bytes[0];
        let b1: u8 = bytes[1];
        let b2: u8 = bytes[2];
        let b3: u8 = bytes[3];
        let little: bool = b0 == 0x03 && b1 == 0x02 && b2 == 0x23 && b3 == 0x07;
        let big: bool = b0 == 0x07 && b1 == 0x23 && b2 == 0x02 && b3 == 0x03;
        if !little && !big {
            return Err(ShaderError::BadMagic);
        }
        let words = spirv_words(bytes);
        Ok(ShaderBinary { words })
    }

    /// The words of the module, ready for the driver.
    pub fn words(&self) -> (words: &Vec<u32>)
        ensures
            words@ == self@,
    {
        &self.words
    }
}

} // verus!
