use vstd::prelude::*;

use vstd::string::StringSliceAdditionalSpecFns;
use vstd::utf8::encode_utf8;

use crate::bus::MEM_SIZE;
use crate::machine::loaded;

verus! {

/// Why the text of a load address was refused.
#[derive(Clone, Copy, PartialEq, Eq, Structural, Debug)]
pub enum AddressError {
    /// The text is empty.
    Empty,
    /// A byte is not a hex digit.
    InvalidDigit,
    /// The number does not fit in 64 bits.
    TooLarge,
}

/// Why a load into the loader's memory failed.
#[derive(PartialEq, Eq, Debug)]
pub enum LoadError {
    /// The address text is not a hex number.
    Address(AddressError),
    /// The file could not be read; the reader's message.
    File(String),
    /// The data would run past the end of memory.
    OutOfRange,
}

/// Value of a hex digit byte (`0-9`, `a-f`, `A-F`).
pub open spec fn hex_digit_value(b: u8) -> Option<nat> {
    if 0x30 <= b <= 0x39 {
        Some((b - 0x30) as nat)
    } else if 0x61 <= b <= 0x66 {
        Some((b - 0x61 + 10) as nat)
    } else if 0x41 <= b <= 0x46 {
        Some((b - 0x41 + 10) as nat)
    } else {
        None
    }
}

/// Reads hex digits left to right onto `acc`, failing at the first byte that
/// is no digit or at the first digit that takes the value past `u64::MAX`.
pub open spec fn scan_hex(digits: Seq<u8>, acc: nat) -> Result<nat, AddressError>
    decreases digits.len(),
{
    if digits.len() == 0 {
        Ok(acc)
    } else {
        match hex_digit_value(digits[0]) {
            None => Err(AddressError::InvalidDigit),
            Some(d) => if acc * 16 + d > u64::MAX {
                Err(AddressError::TooLarge)
            } else {
                scan_hex(digits.drop_first(), acc * 16 + d)
            },
        }
    }
}

/// A hex number with an optional leading `+`.
pub open spec fn parse_address_spec(text: Seq<u8>) -> Result<nat, AddressError> {
    if text.len() == 0 {
        Err(AddressError::Empty)
    } else if text[0] == 0x2B {
        if text.len() == 1 {
            Err(AddressError::InvalidDigit)
        } else {
            scan_hex(text.drop_first(), 0)
        }
    } else {
        scan_hex(text, 0)
    }
}

fn digit_value(b: u8) -> (r: Option<u8>)
    ensures
        match hex_digit_value(b) {
            Some(d) => r == Some(d as u8),
            None => r is None,
        },
{
    if 0x30 <= b && b <= 0x39 {
        Some(b - 0x30)
    } else if 0x61 <= b && b <= 0x66 {
        Some(b - 0x61 + 10)
    } else if 0x41 <= b && b <= 0x46 {
        Some(b - 0x41 + 10)
    } else {
        None
    }
}

/// Parses a load address written in hex, with an optional leading `+`.
pub fn parse_address(text: &str) -> (r: Result<u64, AddressError>)
    ensures
        match parse_address_spec(text.spec_bytes()) {
            Ok(v) => v <= u64::MAX && r == Ok::<u64, AddressError>(v as u64),
            Err(e) => r == Err::<u64, AddressError>(e),
        },
{
    let bytes = text.as_bytes();
    if bytes.len() == 0 {
        return Err(AddressError::Empty);
    }
    let mut i: usize = 0;
    if bytes[0] == 0x2B {
        if bytes.len() == 1 {
            return Err(AddressError::InvalidDigit);
        }
        i = 1;
    }
    let ghost digits = bytes@.subrange(i as int, bytes@.len() as int);
    assert(parse_address_spec(bytes@) == scan_hex(digits, 0)) by {
        if bytes@[0] == 0x2B {
            assert(digits =~= bytes@.drop_first());
        } else {
            assert(digits =~= bytes@);
        }
    }
    let mut acc: u64 = 0;
    while i < bytes.len()
        invariant
            bytes@ == text.spec_bytes(),
            parse_address_spec(bytes@) == scan_hex(digits, 0),
            i <= bytes@.len(),
            scan_hex(digits, 0) == scan_hex(bytes@.subrange(i as int, bytes@.len() as int), acc as nat),
        decreases bytes@.len() - i,
    {
        let ghost rest = bytes@.subrange(i as int, bytes@.len() as int);
        assert(rest.drop_first() =~= bytes@.subrange(i + 1, bytes@.len() as int));
        assert(rest[0] == bytes@[i as int]);
        match digit_value(bytes[i]) {
            None => {
                assert(hex_digit_value(rest[0]) is None);
                assert(scan_hex(rest, acc as nat) == Err::<nat, AddressError>(AddressError::InvalidDigit));
                return Err(AddressError::InvalidDigit);
            },
            Some(d) => {
                if acc > (u64::MAX - d as u64) / 16 {
                    assert(acc * 16 + d > u64::MAX) by (nonlinear_arith)
                        requires
                            acc > (u64::MAX - d as u64) / 16,
                            d < 16,
                    ;
                    assert(scan_hex(rest, acc as nat) == Err::<nat, AddressError>(AddressError::TooLarge));
                    return Err(AddressError::TooLarge);
                }
                assert(acc * 16 + d <= u64::MAX) by (nonlinear_arith)
                    requires
                        acc <= (u64::MAX - d as u64) / 16,
                        d < 16,
                ;
                acc = acc * 16 + d as u64;
            },
        }
        i = i + 1;
    }
    assert(bytes@.subrange(i as int, bytes@.len() as int) =~= Seq::<u8>::empty());
    Ok(acc)
}

/// Loads binary files into a 64 KiB memory at an address given in hex.
pub struct App {
    pub path_text: String,
    pub address_text: String,
    pub error: Option<LoadError>,
    pub memory: Vec<u8>,
}

/// What loading `file` at the address `address` does to `memory`: the new
/// memory, or the error.
pub open spec fn load_spec(address: Seq<u8>, file: Result<Vec<u8>, String>, memory: Seq<u8>) -> Result<Seq<u8>, LoadError> {
    match parse_address_spec(address) {
        Err(e) => Err(LoadError::Address(e)),
        Ok(begin) => match file {
            Err(message) => Err(LoadError::File(message)),
            Ok(data) => if begin + data@.len() > memory.len() {
                Err(LoadError::OutOfRange)
            } else {
                Ok(loaded(memory, begin as int, data@))
            },
        },
    }
}

impl Default for App {
    /// Empty texts, no error, 64 KiB of zeroed memory.
    fn default() -> (r: App)
        ensures
            r.path_text@ == Seq::<char>::empty(),
            r.address_text@ == Seq::<char>::empty(),
            r.error is None,
            r.memory@ == Seq::new(MEM_SIZE as nat, |i: int| 0u8),
    {
        let memory = vec![0u8; 0x10000];
        assert(memory@ =~= Seq::new(MEM_SIZE as nat, |i: int| 0u8));
        App { path_text: String::new(), address_text: String::new(), error: None, memory }
    }
}

impl App {
    /// Copies the file's bytes into memory at the address in `address_text`.
    /// The address is checked first, then the read, then the range; on any
    /// error memory is unchanged.
    pub fn load_data(&mut self, file: Result<Vec<u8>, String>) -> (r: Result<(), LoadError>)
        ensures
            final(self).path_text == old(self).path_text,
            final(self).address_text == old(self).address_text,
            final(self).error == old(self).error,
            match load_spec(encode_utf8(old(self).address_text@), file, old(self).memory@) {
                Ok(m) => r is Ok && final(self).memory@ == m,
                Err(e) => r == Err::<(), LoadError>(e) && final(self).memory@ == old(self).memory@,
            },
    {
        let begin = match parse_address(self.address_text.as_str()) {
            Ok(v) => v,
            Err(e) => {
                return Err(LoadError::Address(e));
            },
        };
        let ghost file_given = file;
        let data = match file {
            Ok(d) => d,
            Err(message) => {
                return Err(LoadError::File(message));
            },
        };
        let len = self.memory.len();
        if begin > len as u64 || data.len() > len - begin as usize {
            return Err(LoadError::OutOfRange);
        }
        let start = begin as usize;
        let mut i: usize = 0;
        while i < data.len()
            invariant
                start == begin,
                start + data@.len() <= len,
                len == self.memory@.len(),
                len == old(self).memory@.len(),
                file_given == Ok::<Vec<u8>, String>(data),
                parse_address_spec(encode_utf8(old(self).address_text@)) == Ok::<nat, AddressError>(begin as nat),
                i <= data@.len(),
                self.path_text == old(self).path_text,
                self.address_text == old(self).address_text,
                self.error == old(self).error,
                forall|j: int|
                    0 <= j < len ==> #[trigger] self.memory@[j] == if start <= j < start + i {
                        data@[j - start]
                    } else {
                        old(self).memory@[j]
                    },
            decreases data@.len() - i,
        {
            self.memory.set(start + i, data[i]);
            i = i + 1;
        }
        assert(self.memory@ =~= loaded(old(self).memory@, begin as int, data@));
        Ok(())
    }

    /// Loads the file and records the outcome: the error, or none.
    pub fn load(&mut self, file: Result<Vec<u8>, String>)
        ensures
            final(self).path_text == old(self).path_text,
            final(self).address_text == old(self).address_text,
            match load_spec(encode_utf8(old(self).address_text@), file, old(self).memory@) {
                Ok(m) => final(self).error is None && final(self).memory@ == m,
                Err(e) => final(self).error == Some(e) && final(self).memory@ == old(self).memory@,
            },
    {
        self.error = match self.load_data(file) {
            Ok(()) => None,
            Err(e) => Some(e),
        };
    }
}

} // verus!
