use vstd::prelude::*;

use crate::common::{ArgumentType, ScalarType};
use crate::error::Error;

verus! {

/// The byte an image must start with at each position of the magic string
/// "xclbin2"; an image starting otherwise is not a device image at all.
pub open spec fn xclbin_magic() -> Seq<u8> {
    seq![0x78u8, 0x63u8, 0x6cu8, 0x62u8, 0x69u8, 0x6eu8, 0x32u8]
}

/// The byte that introduces the build metadata section.
pub const METADATA_MARKER: u8 = 0x4D;

/// One argument position of a kernel as recorded in the image's build
/// metadata: the expected argument type and the identifier of the physical
/// memory bank a buffer bound to this position must be allocated in.
#[derive(Clone, Copy, Debug, PartialEq, Eq, Structural)]
pub struct KernelArgInfo {
    pub arg_type: ArgumentType,
    pub memory_group: i32,
}

/// One kernel discovered in a loaded image: its name and its ordered
/// argument signature.
pub struct KernelInfo {
    pub name: String,
    pub args: Vec<KernelArgInfo>,
}

/// A decoded device image: the kernels its build metadata describes.
pub struct Xclbin {
    pub kernels: Vec<KernelInfo>,
}

/// The first kernel of the given name in a decoded kernel list, if any.
pub open spec fn spec_find_kernel(ks: Seq<KernelInfo>, name: Seq<char>) -> Option<KernelInfo>
    decreases ks.len(),
{
    if ks.len() == 0 {
        None
    } else if ks.first().name@ == name {
        Some(ks.first())
    } else {
        spec_find_kernel(ks.drop_first(), name)
    }
}

impl Xclbin {
    /// The kernel of the given name discovered in this image, if any.
    pub fn find_kernel(&self, name: &str) -> (r: Option<&KernelInfo>)
        ensures
            match r {
                Some(info) => spec_find_kernel(self.kernels@, name@) == Some(*info),
                None => spec_find_kernel(self.kernels@, name@) is None,
            },
    {
        let wanted: String = name.to_owned();
        let n = self.kernels.len();
        proof {
            assert(self.kernels@.skip(0) =~= self.kernels@);
        }
        for i in 0..n
            invariant
                n == self.kernels@.len(),
                wanted@ == name@,
                spec_find_kernel(self.kernels@.skip(i as int), name@) == spec_find_kernel(
                    self.kernels@,
                    name@,
                ),
        {
            proof {
                assert(self.kernels@.skip(i as int).drop_first() =~= self.kernels@.skip(i + 1));
            }
            if self.kernels[i].name == wanted {
                return Some(&self.kernels[i]);
            }
        }
        proof {
            assert(self.kernels@.skip(n as int) =~= Seq::<KernelInfo>::empty());
        }
        None
    }
}

/// The abstract value of one decoded kernel: its name and argument
/// signature as mathematical sequences.
pub struct KernelView {
    pub name: Seq<char>,
    pub args: Seq<KernelArgInfo>,
}

/// The abstract value of a decoded kernel list.
pub open spec fn kernels_view(ks: Seq<KernelInfo>) -> Seq<KernelView> {
    ks.map_values(|k: KernelInfo| KernelView { name: k.name@, args: k.args@ })
}

/// A byte of the image read as the character it encodes.
pub open spec fn bytes_as_chars(s: Seq<u8>) -> Seq<char> {
    s.map_values(|b: u8| b as char)
}

/// Whether the image starts with the expected magic string.
pub open spec fn magic_ok(bytes: Seq<u8>) -> bool {
    bytes.len() >= 7 && bytes.subrange(0, 7) == xclbin_magic()
}

/// The characters actually found where the magic string was expected: the
/// image's first bytes, up to the magic string's length.
pub open spec fn found_magic(bytes: Seq<u8>) -> Seq<char> {
    bytes_as_chars(bytes.take(if bytes.len() < 7 { bytes.len() as int } else { 7 }))
}

/// The scalar type a metadata element-type code denotes, if any.
pub open spec fn decode_scalar_type(e: u8) -> Option<ScalarType> {
    if e == 0 {
        Some(ScalarType::U32)
    } else if e == 1 {
        Some(ScalarType::I32)
    } else if e == 2 {
        Some(ScalarType::U64)
    } else if e == 3 {
        Some(ScalarType::I64)
    } else if e == 4 {
        Some(ScalarType::F32)
    } else if e == 5 {
        Some(ScalarType::F64)
    } else {
        None
    }
}

/// The argument a three-byte metadata descriptor denotes, if any: a kind
/// code (0 scalar, 1 buffer), an element-type code for buffer arguments,
/// and the required memory group.
pub open spec fn decode_arg(kind: u8, elem: u8, group: u8) -> Option<KernelArgInfo> {
    if kind == 0 {
        Some(KernelArgInfo { arg_type: ArgumentType::Scalar, memory_group: group as i32 })
    } else if kind == 1 {
        match decode_scalar_type(elem) {
            Some(t) => Some(
                KernelArgInfo { arg_type: ArgumentType::Buffer(t), memory_group: group as i32 },
            ),
            None => None,
        }
    } else {
        None
    }
}

/// The outcome of decoding an argument list from the metadata: the decoded
/// arguments, or the byte range that ran past the end of the data, or a
/// descriptor no argument corresponds to.
pub enum ArgsParse {
    Parsed(Seq<KernelArgInfo>),
    Truncated(int, int),
    BadDescriptor,
}

/// Decodes `count` three-byte argument descriptors starting at `pos`.
pub open spec fn spec_parse_args(bytes: Seq<u8>, pos: int, count: nat) -> ArgsParse
    decreases count,
{
    if count == 0 {
        ArgsParse::Parsed(Seq::empty())
    } else if pos + 3 > bytes.len() {
        ArgsParse::Truncated(pos, bytes.len() as int)
    } else {
        match decode_arg(bytes[pos], bytes[pos + 1], bytes[pos + 2]) {
            None => ArgsParse::BadDescriptor,
            Some(a) => match spec_parse_args(bytes, pos + 3, (count - 1) as nat) {
                ArgsParse::Parsed(rest) => ArgsParse::Parsed(seq![a] + rest),
                other => other,
            },
        }
    }
}

/// The outcome of decoding a kernel table from the metadata.
pub enum KernelsParse {
    Parsed(Seq<KernelView>),
    Truncated(int, int),
    BadDescriptor,
}

/// Decodes `count` kernel records starting at `pos`.  A record is a name
/// length byte, the name's bytes, an argument count byte, and that many
/// three-byte argument descriptors.
pub open spec fn spec_parse_kernels(bytes: Seq<u8>, pos: int, count: nat) -> KernelsParse
    decreases count,
{
    if count == 0 {
        KernelsParse::Parsed(Seq::empty())
    } else if pos + 1 > bytes.len() {
        KernelsParse::Truncated(pos, bytes.len() as int)
    } else {
        let nlen = bytes[pos] as int;
        if pos + 1 + nlen > bytes.len() {
            KernelsParse::Truncated(pos + 1, bytes.len() as int)
        } else {
            let name = bytes_as_chars(bytes.subrange(pos + 1, pos + 1 + nlen));
            let apos = pos + 1 + nlen;
            if apos + 1 > bytes.len() {
                KernelsParse::Truncated(apos, bytes.len() as int)
            } else {
                let argc = bytes[apos] as nat;
                match spec_parse_args(bytes, apos + 1, argc) {
                    ArgsParse::Truncated(a, b) => KernelsParse::Truncated(a, b),
                    ArgsParse::BadDescriptor => KernelsParse::BadDescriptor,
                    ArgsParse::Parsed(args) => match spec_parse_kernels(
                        bytes,
                        apos + 1 + 3 * argc,
                        (count - 1) as nat,
                    ) {
                        KernelsParse::Parsed(rest) => KernelsParse::Parsed(
                            seq![KernelView { name, args }] + rest,
                        ),
                        other => other,
                    },
                }
            }
        }
    }
}

/// Relies on String::push: appends exactly the given character.
#[verifier::external_body]
fn push_char(s: &mut String, c: char)
    ensures
        final(s)@ == old(s)@.push(c),
{
    s.push(c)
}

/// The image's bytes in `[start, end)` read as a string, one character per
/// byte.
fn string_from_bytes(bytes: &Vec<u8>, start: usize, end: usize) -> (s: String)
    requires
        start <= end <= bytes@.len(),
    ensures
        s@ == bytes_as_chars(bytes@.subrange(start as int, end as int)),
{
    let mut s = String::new();
    let mut i: usize = start;
    proof {
        assert(s@ =~= bytes_as_chars(bytes@.subrange(start as int, start as int)));
    }
    while i < end
        invariant
            start <= i <= end <= bytes@.len(),
            s@ == bytes_as_chars(bytes@.subrange(start as int, i as int)),
        decreases end - i,
    {
        push_char(&mut s, bytes[i] as char);
        i = i + 1;
        proof {
            assert(bytes@.subrange(start as int, i as int) =~= bytes@.subrange(
                start as int,
                i - 1,
            ).push(bytes@[i - 1]));
            assert(s@ =~= bytes_as_chars(bytes@.subrange(start as int, i as int)));
        }
    }
    s
}

/// Runtime counterpart of [`decode_scalar_type`].
fn decode_scalar_type_exec(e: u8) -> (r: Option<ScalarType>)
    ensures
        r == decode_scalar_type(e),
{
    if e == 0 {
        Some(ScalarType::U32)
    } else if e == 1 {
        Some(ScalarType::I32)
    } else if e == 2 {
        Some(ScalarType::U64)
    } else if e == 3 {
        Some(ScalarType::I64)
    } else if e == 4 {
        Some(ScalarType::F32)
    } else if e == 5 {
        Some(ScalarType::F64)
    } else {
        None
    }
}

/// Runtime counterpart of [`decode_arg`].
fn decode_arg_exec(kind: u8, elem: u8, group: u8) -> (r: Option<KernelArgInfo>)
    ensures
        r == decode_arg(kind, elem, group),
{
    if kind == 0 {
        Some(KernelArgInfo { arg_type: ArgumentType::Scalar, memory_group: group as i32 })
    } else if kind == 1 {
        match decode_scalar_type_exec(elem) {
            Some(t) => Some(
                KernelArgInfo { arg_type: ArgumentType::Buffer(t), memory_group: group as i32 },
            ),
            None => None,
        }
    } else {
        None
    }
}

/// A successfully decoded argument list of `count` descriptors ends exactly
/// `3 * count` bytes after its start, within the data.
proof fn lemma_parsed_args_end(bytes: Seq<u8>, pos: int, count: nat)
    requires
        0 <= pos <= bytes.len(),
        spec_parse_args(bytes, pos, count) is Parsed,
    ensures
        pos + 3 * count <= bytes.len(),
    decreases count,
{
    if count > 0 {
        lemma_parsed_args_end(bytes, pos + 3, (count - 1) as nat);
    }
}

/// Decodes `count` argument descriptors starting at `pos`, exactly as
/// [`spec_parse_args`] describes; a failure is the error that outcome
/// names, with a truncation carrying the start of the range that was needed
/// and the end of the data that was there.
fn parse_args(bytes: &Vec<u8>, pos: usize, count: u8) -> (r: Result<Vec<KernelArgInfo>, Error>)
    requires
        pos <= bytes@.len(),
    ensures
        match r {
            Ok(args) => spec_parse_args(bytes@, pos as int, count as nat) == ArgsParse::Parsed(
                args@,
            ),
            Err(e) => match spec_parse_args(bytes@, pos as int, count as nat) {
                ArgsParse::Parsed(_) => false,
                ArgsParse::Truncated(a, b) => e == Error::XclbinByteReadingError(
                    a as usize,
                    b as usize,
                ),
                ArgsParse::BadDescriptor => e matches Error::XclbinJSONParseError(m) && m@
                    == "unrecognized argument descriptor"@,
            },
        },
    decreases count,
{
    if count == 0 {
        let args: Vec<KernelArgInfo> = Vec::new();
        proof {
            assert(args@ =~= Seq::<KernelArgInfo>::empty());
        }
        return Ok(args);
    }
    if bytes.len() - pos < 3 {
        return Err(Error::XclbinByteReadingError(pos, bytes.len()));
    }
    let arg = match decode_arg_exec(bytes[pos], bytes[pos + 1], bytes[pos + 2]) {
        None => {
            return Err(Error::XclbinJSONParseError("unrecognized argument descriptor".to_owned()));
        },
        Some(a) => a,
    };
    let mut rest = match parse_args(bytes, pos + 3, count - 1) {
        Ok(v) => v,
        Err(e) => {
            return Err(e);
        },
    };
    let ghost rest0 = rest@;
    rest.insert(0, arg);
    proof {
        assert(rest@ =~= seq![arg] + rest0);
    }
    Ok(rest)
}

/// Decodes `count` kernel records starting at `pos`, exactly as
/// [`spec_parse_kernels`] describes.
fn parse_kernels(bytes: &Vec<u8>, pos: usize, count: u8) -> (r: Result<Vec<KernelInfo>, Error>)
    requires
        pos <= bytes@.len(),
    ensures
        match r {
            Ok(ks) => spec_parse_kernels(bytes@, pos as int, count as nat) == KernelsParse::Parsed(
                kernels_view(ks@),
            ),
            Err(e) => match spec_parse_kernels(bytes@, pos as int, count as nat) {
                KernelsParse::Parsed(_) => false,
                KernelsParse::Truncated(a, b) => e == Error::XclbinByteReadingError(
                    a as usize,
                    b as usize,
                ),
                KernelsParse::BadDescriptor => e matches Error::XclbinJSONParseError(m) && m@
                    == "unrecognized argument descriptor"@,
            },
        },
    decreases count,
{
    if count == 0 {
        let ks: Vec<KernelInfo> = Vec::new();
        proof {
            assert(kernels_view(ks@) =~= Seq::<KernelView>::empty());
        }
        return Ok(ks);
    }
    if pos >= bytes.len() {
        return Err(Error::XclbinByteReadingError(pos, bytes.len()));
    }
    let nlen = bytes[pos] as usize;
    if bytes.len() - (pos + 1) < nlen {
        return Err(Error::XclbinByteReadingError(pos + 1, bytes.len()));
    }
    let name = string_from_bytes(bytes, pos + 1, pos + 1 + nlen);
    let apos = pos + 1 + nlen;
    if apos >= bytes.len() {
        return Err(Error::XclbinByteReadingError(apos, bytes.len()));
    }
    let argc = bytes[apos];
    let args = match parse_args(bytes, apos + 1, argc) {
        Ok(v) => v,
        Err(e) => {
            return Err(e);
        },
    };
    proof {
        lemma_parsed_args_end(bytes@, apos + 1, argc as nat);
    }
    let next = apos + 1 + 3 * (argc as usize);
    let mut rest = match parse_kernels(bytes, next, count - 1) {
        Ok(v) => v,
        Err(e) => {
            return Err(e);
        },
    };
    let ghost rest_view = kernels_view(rest@);
    let info = KernelInfo { name, args };
    let ghost info_view = KernelView { name: info.name@, args: info.args@ };
    rest.insert(0, info);
    proof {
        assert(kernels_view(rest@) =~= seq![info_view] + rest_view);
    }
    Ok(rest)
}

/// What decoding an image yields, related to the image's bytes: the single
/// outcome [`parse_xclbin`] promises for those bytes.
pub open spec fn parse_result_matches(bytes: Seq<u8>, r: Result<Xclbin, Error>) -> bool {
    &&& !magic_ok(bytes) ==> (r matches Err(e) && e matches Error::XclbinInvalidMagicString(found)
        && found@ == found_magic(bytes))
    &&& magic_ok(bytes) && bytes.len() < 8 ==> r == Err::<Xclbin, Error>(
        Error::XclbinByteReadingError(7, 7),
    )
    &&& magic_ok(bytes) && bytes.len() >= 8 && bytes[7] != METADATA_MARKER ==> r == Err::<
        Xclbin,
        Error,
    >(Error::XclbinNoBuildMetadataSection)
    &&& magic_ok(bytes) && bytes.len() == 8 && bytes[7] == METADATA_MARKER ==> r == Err::<
        Xclbin,
        Error,
    >(Error::XclbinByteReadingError(8, 8))
    &&& magic_ok(bytes) && bytes.len() >= 9 && bytes[7] == METADATA_MARKER ==> match r {
        Ok(x) => spec_parse_kernels(bytes, 9, bytes[8] as nat) == KernelsParse::Parsed(
            kernels_view(x.kernels@),
        ),
        Err(e) => match spec_parse_kernels(bytes, 9, bytes[8] as nat) {
            KernelsParse::Parsed(_) => false,
            KernelsParse::Truncated(a, b) => e == Error::XclbinByteReadingError(
                a as usize,
                b as usize,
            ),
            KernelsParse::BadDescriptor => e matches Error::XclbinJSONParseError(m) && m@
                == "unrecognized argument descriptor"@,
        },
    }
}

/// Decodes a device image.  The image must open with the magic string
/// "xclbin2"; otherwise the result is `XclbinInvalidMagicString` carrying
/// what was found in its place.  After the magic string come the build
/// metadata marker byte (else `XclbinNoBuildMetadataSection`), a kernel
/// count byte, and that many kernel records; a read past the end of the
/// data is `XclbinByteReadingError` with the range bounds, and a descriptor
/// that no argument corresponds to is `XclbinJSONParseError`.
pub fn parse_xclbin(bytes: &Vec<u8>) -> (r: Result<Xclbin, Error>)
    ensures
        parse_result_matches(bytes@, r),
{
    let n = bytes.len();
    let magic_present = n >= 7 && bytes[0] == 0x78 && bytes[1] == 0x63 && bytes[2] == 0x6c
        && bytes[3] == 0x62 && bytes[4] == 0x69 && bytes[5] == 0x6e && bytes[6] == 0x32;
    if !magic_present {
        proof {
            if bytes@.len() >= 7 {
                assert(bytes@.subrange(0, 7) != xclbin_magic()) by {
                    if bytes@.subrange(0, 7) == xclbin_magic() {
                        assert(bytes@[0] == xclbin_magic()[0]);
                        assert(bytes@[1] == xclbin_magic()[1]);
                        assert(bytes@[2] == xclbin_magic()[2]);
                        assert(bytes@[3] == xclbin_magic()[3]);
                        assert(bytes@[4] == xclbin_magic()[4]);
                        assert(bytes@[5] == xclbin_magic()[5]);
                        assert(bytes@[6] == xclbin_magic()[6]);
                    }
                }
            }
        }
        let prefix_end = if n < 7 {
            n
        } else {
            7
        };
        let found = string_from_bytes(bytes, 0, prefix_end);
        proof {
            assert(bytes@.subrange(0, prefix_end as int) =~= bytes@.take(
                if bytes@.len() < 7 {
                    bytes@.len() as int
                } else {
                    7
                },
            ));
        }
        return Err(Error::XclbinInvalidMagicString(found));
    }
    proof {
        assert(bytes@.subrange(0, 7) =~= xclbin_magic());
    }
    if n < 8 {
        return Err(Error::XclbinByteReadingError(7, 7));
    }
    if bytes[7] != METADATA_MARKER {
        return Err(Error::XclbinNoBuildMetadataSection);
    }
    if n < 9 {
        return Err(Error::XclbinByteReadingError(8, 8));
    }
    let count = bytes[8];
    match parse_kernels(bytes, 9, count) {
        Ok(kernels) => Ok(Xclbin { kernels }),
        Err(e) => Err(e),
    }
}

} // verus!
