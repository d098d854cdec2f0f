//! Paths in the form that the operating system reads: bytes that end in a
//! single nul byte, which is not counted as part of the path.
use vstd::prelude::*;
use vstd::string::StringSliceAdditionalSpecFns;

use crate::error::Error;

verus! {

/// No nul byte stands before the last position.
pub open spec fn valid_path(b: Seq<u8>) -> bool {
    forall|i: int| 0 <= i < b.len() - 1 ==> b[i] != 0u8
}

/// The bytes end in a nul byte.
pub open spec fn ends_in_nul(b: Seq<u8>) -> bool {
    b.len() > 0 && b.last() == 0u8
}

/// No byte is nul.
pub open spec fn nul_free(b: Seq<u8>) -> bool {
    forall|i: int| 0 <= i < b.len() ==> b[i] != 0u8
}

/// A valid path that ends in its nul byte: the form the system reads.
pub open spec fn terminated(b: Seq<u8>) -> bool {
    ends_in_nul(b) && valid_path(b)
}

/// The path that the bytes name: the bytes without a final nul byte.
pub open spec fn path_of(b: Seq<u8>) -> Seq<u8> {
    if ends_in_nul(b) {
        b.drop_last()
    } else {
        b
    }
}

/// A path of a valid sequence holds no nul byte.
pub proof fn lemma_path_of_nul_free(b: Seq<u8>)
    requires
        valid_path(b),
    ensures
        nul_free(path_of(b)),
{
    if !ends_in_nul(b) && b.len() > 0 {
        assert(b[b.len() - 1] != 0u8);
    }
}

/// Whether the bytes are a valid path: no nul byte but possibly the last.
pub fn is_valid_path(bytes: &[u8]) -> (r: bool)
    ensures
        r == valid_path(bytes@),
{
    let n = bytes.len();
    let mut i: usize = 0;
    while i < n
        invariant
            n == bytes@.len(),
            i <= n,
            forall|j: int| 0 <= j < i && j < n - 1 ==> bytes@[j] != 0u8,
        decreases n - i,
    {
        if bytes[i] == 0 && i < n - 1 {
            return false;
        }
        i += 1;
    }
    true
}

/// An owned path in the form the system reads.
#[derive(Debug)]
pub struct OsString {
    bytes: Vec<u8>,
}

impl OsString {
    #[verifier::type_invariant]
    spec fn inv(&self) -> bool {
        terminated(self.bytes@)
    }
}

impl View for OsString {
    type V = Seq<u8>;

    closed spec fn view(&self) -> Seq<u8> {
        self.bytes@.drop_last()
    }
}

impl OsString {
    /// The bytes of the path followed by its nul byte.
    pub fn as_bytes_with_nul(&self) -> (r: &[u8])
        ensures
            r@ == self@.push(0u8),
            nul_free(self@),
    {
        proof {
            use_type_invariant(self);
            assert(self.bytes@ =~= self@.push(0u8));
        }
        self.bytes.as_slice()
    }

    /// The number of bytes of the path, its nul byte left out.
    pub fn len(&self) -> (r: usize)
        ensures
            r == self@.len(),
    {
        proof {
            use_type_invariant(self);
        }
        self.bytes.len() - 1
    }

    /// A view of this path.
    pub fn as_os_str(&self) -> (r: OsStr<'_>)
        ensures
            r@ == self@,
    {
        proof {
            use_type_invariant(self);
        }
        OsStr { bytes: self.bytes.as_slice() }
    }
}

/// A borrowed path in the form the system reads.
#[derive(Debug, Clone, Copy)]
pub struct OsStr<'a> {
    bytes: &'a [u8],
}

impl<'a> OsStr<'a> {
    #[verifier::type_invariant]
    spec fn inv(&self) -> bool {
        terminated(self.bytes@)
    }
}

impl<'a> View for OsStr<'a> {
    type V = Seq<u8>;

    closed spec fn view(&self) -> Seq<u8> {
        self.bytes@.drop_last()
    }
}

impl<'a> OsStr<'a> {
    /// The bytes of the path followed by its nul byte.
    pub fn as_bytes_with_nul(&self) -> (r: &'a [u8])
        ensures
            r@ == self@.push(0u8),
            nul_free(self@),
    {
        proof {
            use_type_invariant(self);
            assert(self.bytes@ =~= self@.push(0u8));
        }
        self.bytes
    }

    /// The number of bytes of the path, its nul byte left out.
    pub fn len(&self) -> (r: usize)
        ensures
            r == self@.len(),
    {
        proof {
            use_type_invariant(self);
        }
        self.bytes.len() - 1
    }
}

/// A path that is either borrowed from the caller or held in an allocation
/// of its own.
#[derive(Debug)]
pub enum EitherOsStr<'a> {
    Borrowed(OsStr<'a>),
    Owned(OsString),
}

impl<'a> View for EitherOsStr<'a> {
    type V = Seq<u8>;

    open spec fn view(&self) -> Seq<u8> {
        match self {
            EitherOsStr::Borrowed(s) => s@,
            EitherOsStr::Owned(s) => s@,
        }
    }
}

impl<'a> EitherOsStr<'a> {
    /// A view of this path, wherever it is held.
    pub fn as_os_str(&self) -> (r: OsStr<'_>)
        ensures
            r@ == self@,
    {
        match self {
            EitherOsStr::Borrowed(s) => *s,
            EitherOsStr::Owned(s) => s.as_os_str(),
        }
    }
}

/// A copy of the first `n` bytes of `src` with a nul byte after them, or the
/// out-of-memory error where the allocation fails.
fn terminated_copy(src: &[u8], n: usize) -> (r: Result<OsString, Error>)
    requires
        n <= src@.len(),
        nul_free(src@.subrange(0, n as int)),
    ensures
        r is Ok ==> r->Ok_0@ == src@.subrange(0, n as int),
{
    if n == usize::MAX {
        return Err(Error::out_of_memory());
    }
    let mut bytes: Vec<u8> = Vec::new();
    if bytes.try_reserve(n + 1).is_err() {
        return Err(Error::out_of_memory());
    }
    let mut i: usize = 0;
    while i < n
        invariant
            n <= src@.len(),
            i <= n,
            bytes@ == src@.subrange(0, i as int),
        decreases n - i,
    {
        bytes.push(src[i]);
        i += 1;
        proof {
            assert(bytes@ =~= src@.subrange(0, i as int));
        }
    }
    bytes.push(0u8);
    proof {
        assert(bytes@.drop_last() =~= src@.subrange(0, n as int));
        assert forall|j: int| 0 <= j < bytes@.len() - 1 implies bytes@[j] != 0u8 by {
            assert(bytes@[j] == src@.subrange(0, n as int)[j]);
        }
    }
    Ok(OsString { bytes })
}

/// Turns bytes into a path the system can read. Bytes that already end in
/// their only nul byte are borrowed; other bytes are copied into an
/// allocation with a nul byte appended.
pub fn make_os_str(slice: &[u8]) -> (r: Result<EitherOsStr<'_>, Error>)
    requires
        valid_path(slice@),
    ensures
        r is Ok ==> r->Ok_0@ == path_of(slice@),
        ends_in_nul(slice@) <==> (r is Ok && r->Ok_0 is Borrowed),
{
    let n = slice.len();
    if n > 0 && slice[n - 1] == 0 {
        let view = OsStr { bytes: slice };
        return Ok(EitherOsStr::Borrowed(view));
    }
    proof {
        lemma_path_of_nul_free(slice@);
        assert(slice@.subrange(0, n as int) =~= slice@);
    }
    match terminated_copy(slice, n) {
        Ok(owned) => Ok(EitherOsStr::Owned(owned)),
        Err(e) => Err(e),
    }
}

/// Conversion into a path the system can read, borrowing where the value
/// already is in that form.
pub trait ToOsStr {
    /// The bytes of the path as the value holds them.
    spec fn path_bytes(&self) -> Seq<u8>;

    /// Whether the value can name a path: no nul byte but possibly the last.
    fn is_valid(&self) -> (r: bool)
        ensures
            r == valid_path(self.path_bytes()),
    ;

    /// Converts; the only error is a failed allocation.
    fn to_os_str(&self) -> (r: Result<EitherOsStr<'_>, Error>)
        requires
            valid_path(self.path_bytes()),
        ensures
            r is Ok ==> r->Ok_0@ == path_of(self.path_bytes()),
            ends_in_nul(self.path_bytes()) <==> (r is Ok && r->Ok_0 is Borrowed),
    ;
}

impl ToOsStr for [u8] {
    open spec fn path_bytes(&self) -> Seq<u8> {
        self@
    }

    fn is_valid(&self) -> (r: bool) {
        is_valid_path(self)
    }

    fn to_os_str(&self) -> (r: Result<EitherOsStr<'_>, Error>) {
        make_os_str(self)
    }
}

impl ToOsStr for str {
    open spec fn path_bytes(&self) -> Seq<u8> {
        self.spec_bytes()
    }

    fn is_valid(&self) -> (r: bool) {
        is_valid_path(self.as_bytes())
    }

    fn to_os_str(&self) -> (r: Result<EitherOsStr<'_>, Error>) {
        make_os_str(self.as_bytes())
    }
}

impl<'a> ToOsStr for OsStr<'a> {
    open spec fn path_bytes(&self) -> Seq<u8> {
        self@.push(0u8)
    }

    fn is_valid(&self) -> (r: bool) {
        let _ = self.as_bytes_with_nul();
        true
    }

    fn to_os_str(&self) -> (r: Result<EitherOsStr<'_>, Error>) {
        let _ = self.as_bytes_with_nul();
        Ok(EitherOsStr::Borrowed(*self))
    }
}

impl ToOsStr for OsString {
    open spec fn path_bytes(&self) -> Seq<u8> {
        self@.push(0u8)
    }

    fn is_valid(&self) -> (r: bool) {
        let _ = self.as_bytes_with_nul();
        true
    }

    fn to_os_str(&self) -> (r: Result<EitherOsStr<'_>, Error>) {
        let _ = self.as_bytes_with_nul();
        Ok(EitherOsStr::Borrowed(self.as_os_str()))
    }
}

/// Conversion into an owned path the system can read.
pub trait IntoOsString: Sized {
    /// The path that the value names.
    spec fn os_path(&self) -> Seq<u8>;

    /// The value can name a path: it holds no nul byte but possibly the last.
    spec fn convertible(&self) -> bool;

    /// The conversion has to allocate.
    spec fn allocates(&self) -> bool;

    /// Converts; the only error is a failed allocation.
    fn into_os_string(self) -> (r: Result<OsString, Error>)
        requires
            self.convertible(),
        ensures
            r is Ok ==> r->Ok_0@ == self.os_path(),
            !self.allocates() ==> r is Ok,
    ;
}

impl IntoOsString for OsString {
    open spec fn os_path(&self) -> Seq<u8> {
        self@
    }

    open spec fn convertible(&self) -> bool {
        true
    }

    open spec fn allocates(&self) -> bool {
        false
    }

    fn into_os_string(self) -> (r: Result<OsString, Error>) {
        Ok(self)
    }
}

impl<'a> IntoOsString for OsStr<'a> {
    open spec fn os_path(&self) -> Seq<u8> {
        self@
    }

    open spec fn convertible(&self) -> bool {
        true
    }

    open spec fn allocates(&self) -> bool {
        true
    }

    fn into_os_string(self) -> (r: Result<OsString, Error>) {
        let bytes = self.as_bytes_with_nul();
        let n = self.len();
        proof {
            assert(bytes@.subrange(0, n as int) =~= self@);
        }
        terminated_copy(bytes, n)
    }
}

impl<'a> IntoOsString for EitherOsStr<'a> {
    open spec fn os_path(&self) -> Seq<u8> {
        self@
    }

    open spec fn convertible(&self) -> bool {
        true
    }

    open spec fn allocates(&self) -> bool {
        self is Borrowed
    }

    fn into_os_string(self) -> (r: Result<OsString, Error>) {
        match self {
            EitherOsStr::Borrowed(s) => s.into_os_string(),
            EitherOsStr::Owned(s) => Ok(s),
        }
    }
}

impl<'a> IntoOsString for &'a str {
    open spec fn os_path(&self) -> Seq<u8> {
        path_of(self.spec_bytes())
    }

    open spec fn convertible(&self) -> bool {
        valid_path(self.spec_bytes())
    }

    open spec fn allocates(&self) -> bool {
        true
    }

    fn into_os_string(self) -> (r: Result<OsString, Error>) {
        match self.to_os_str() {
            Ok(path) => path.into_os_string(),
            Err(e) => Err(e),
        }
    }
}

} // verus!
