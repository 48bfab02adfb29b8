//! Digest verification: the supported algorithms, streamed digests of file
//! contents, their lowercase hex rendering and the case-insensitive match
//! against an expected value.
use vstd::prelude::*;
use vstd::string::*;
use crate::format::{digit_char, push_digit};

verus! {

/// Running SHA-256 state over the bytes fed so far. It holds sha2's
/// `Sha256`, whose type parameters Verus cannot take, behind a private field.
#[verifier::external_body]
pub struct Sha256State {
    inner: sha2::Sha256,
}

/// Running MD5 state over the bytes fed so far. It holds md-5's `Md5`,
/// whose type parameters Verus cannot take, behind a private field.
#[verifier::external_body]
pub struct Md5State {
    inner: md5::Md5,
}

/// The bytes fed into a SHA-256 state since it was created.
pub uninterp spec fn sha256_input(s: Sha256State) -> Seq<u8>;

/// The bytes fed into an MD5 state since it was created.
pub uninterp spec fn md5_input(s: Md5State) -> Seq<u8>;

/// The SHA-256 digest of `data`.
pub uninterp spec fn sha256_digest(data: Seq<u8>) -> Seq<u8>;

/// The MD5 digest of `data`.
pub uninterp spec fn md5_digest(data: Seq<u8>) -> Seq<u8>;

/// Relies on sha2's `Digest::new`: a fresh state has absorbed nothing.
#[verifier::external_body]
fn sha256_start() -> (r: Sha256State)
    ensures
        sha256_input(r) == Seq::<u8>::empty(),
{
    Sha256State { inner: <sha2::Sha256 as sha2::Digest>::new() }
}

/// Relies on sha2's `Digest::update`: the state goes on over `data`.
#[verifier::external_body]
fn sha256_feed(s: &mut Sha256State, data: &[u8])
    ensures
        sha256_input(*final(s)) == sha256_input(*old(s)) + data@,
{
    sha2::Digest::update(&mut s.inner, data)
}

/// Relies on sha2's `Digest::finalize`: the 32-byte digest of all bytes fed.
#[verifier::external_body]
fn sha256_finish(s: Sha256State) -> (r: Vec<u8>)
    ensures
        r@ == sha256_digest(sha256_input(s)),
        r@.len() == 32,
{
    sha2::Digest::finalize(s.inner).to_vec()
}

/// Relies on md-5's `Digest::new`: a fresh state has absorbed nothing.
#[verifier::external_body]
fn md5_start() -> (r: Md5State)
    ensures
        md5_input(r) == Seq::<u8>::empty(),
{
    Md5State { inner: <md5::Md5 as md5::Digest>::new() }
}

/// Relies on md-5's `Digest::update`: the state goes on over `data`.
#[verifier::external_body]
fn md5_feed(s: &mut Md5State, data: &[u8])
    ensures
        md5_input(*final(s)) == md5_input(*old(s)) + data@,
{
    md5::Digest::update(&mut s.inner, data)
}

/// Relies on md-5's `Digest::finalize`: the 16-byte digest of all bytes fed.
#[verifier::external_body]
fn md5_finish(s: Md5State) -> (r: Vec<u8>)
    ensures
        r@ == md5_digest(md5_input(s)),
        r@.len() == 16,
{
    md5::Digest::finalize(s.inner).to_vec()
}

/// A supported digest algorithm.
#[derive(Clone, Copy, Debug, PartialEq, Eq, Structural)]
pub enum ChecksumAlgorithm {
    Sha256,
    Md5,
}

/// The digest of `data` under `alg`.
pub open spec fn digest_of(alg: ChecksumAlgorithm, data: Seq<u8>) -> Seq<u8> {
    match alg {
        ChecksumAlgorithm::Sha256 => sha256_digest(data),
        ChecksumAlgorithm::Md5 => md5_digest(data),
    }
}

/// A character with ASCII upper-case letters mapped to lower case, as a code point.
pub open spec fn fold_ascii(c: char) -> u32 {
    let v = c as u32;
    if 65 <= v && v <= 90 {
        (v + 32) as u32
    } else {
        v
    }
}

/// `a` and `b` are equal up to the case of ASCII letters.
pub open spec fn eq_ignore_ascii_case(a: Seq<char>, b: Seq<char>) -> bool {
    a.len() == b.len() && forall|i: int| 0 <= i < a.len() ==> fold_ascii(#[trigger] a[i]) == fold_ascii(b[i])
}

/// Two lowercase hex digits for each byte, in order.
pub open spec fn hex_text(b: Seq<u8>) -> Seq<char>
    decreases b.len(),
{
    if b.len() == 0 {
        Seq::empty()
    } else {
        hex_text(b.drop_last()) + seq![
            digit_char((b.last() / 16) as nat),
            digit_char((b.last() % 16) as nat),
        ]
    }
}

/// Whether a file of content `data` passes verification against `expected`
/// under `alg`.
pub open spec fn checksum_verdict(alg: ChecksumAlgorithm, data: Seq<u8>, expected: Seq<char>) -> bool {
    eq_ignore_ascii_case(hex_text(digest_of(alg, data)), expected)
}

/// The names accepted for each algorithm, in lower case.
pub open spec fn algorithm_name(alg: ChecksumAlgorithm) -> Seq<char> {
    match alg {
        ChecksumAlgorithm::Sha256 => seq!['s', 'h', 'a', '2', '5', '6'],
        ChecksumAlgorithm::Md5 => seq!['m', 'd', '5'],
    }
}

/// The algorithm that `name` selects, if any.
pub open spec fn algorithm_named(name: Seq<char>) -> Option<ChecksumAlgorithm> {
    if eq_ignore_ascii_case(name, algorithm_name(ChecksumAlgorithm::Sha256)) {
        Some(ChecksumAlgorithm::Sha256)
    } else if eq_ignore_ascii_case(name, algorithm_name(ChecksumAlgorithm::Md5)) {
        Some(ChecksumAlgorithm::Md5)
    } else {
        None
    }
}

/// The code point of `c` with ASCII upper-case letters mapped to lower case.
fn fold_char(c: char) -> (r: u32)
    ensures
        r == fold_ascii(c),
{
    let v = c as u32;
    if 65 <= v && v <= 90 {
        v + 32
    } else {
        v
    }
}

/// Whether `a` and `b` are equal up to the case of ASCII letters.
pub fn equals_ignoring_ascii_case(a: &str, b: &str) -> (r: bool)
    ensures
        r == eq_ignore_ascii_case(a@, b@),
{
    let n = a.unicode_len();
    if n != b.unicode_len() {
        return false;
    }
    let mut i: usize = 0;
    while i < n
        invariant
            n == a@.len(),
            n == b@.len(),
            i <= n,
            forall|j: int| 0 <= j < i ==> fold_ascii(#[trigger] a@[j]) == fold_ascii(b@[j]),
        decreases n - i,
    {
        if fold_char(a.get_char(i)) != fold_char(b.get_char(i)) {
            return false;
        }
        i = i + 1;
    }
    true
}

/// Renders `bytes` as lowercase hex, two digits per byte.
pub fn to_hex(bytes: &[u8]) -> (r: String)
    ensures
        r@ == hex_text(bytes@),
{
    let mut s = String::new();
    let mut i: usize = 0;
    while i < bytes.len()
        invariant
            i <= bytes@.len(),
            s@ == hex_text(bytes@.subrange(0, i as int)),
        decreases bytes@.len() - i,
    {
        let b = bytes[i];
        push_digit(&mut s, (b / 16) as usize);
        push_digit(&mut s, (b % 16) as usize);
        proof {
            let next = bytes@.subrange(0, i + 1);
            assert(next.drop_last() =~= bytes@.subrange(0, i as int));
        }
        i = i + 1;
    }
    assert(bytes@.subrange(0, bytes@.len() as int) =~= bytes@);
    s
}

/// The error of a verification asked for with an algorithm that is not
/// supported; it is raised before any file is read.
#[derive(Debug)]
pub struct UnsupportedAlgorithm {
    pub name: String,
}

impl UnsupportedAlgorithm {
    /// The message shown for this error.
    pub fn message(&self) -> (r: String)
        ensures
            r@ == seq!['U', 'n', 's', 'u', 'p', 'p', 'o', 'r', 't', 'e', 'd', ' ', 'a', 'l', 'g', 'o', 'r', 'i', 't', 'h', 'm', ':', ' '] + self.name@,
    {
        let mut r = String::from_str("Unsupported algorithm: ");
        proof {
            reveal_strlit("Unsupported algorithm: ");
        }
        r.append(self.name.as_str());
        assert(r@ =~= seq!['U', 'n', 's', 'u', 'p', 'p', 'o', 'r', 't', 'e', 'd', ' ', 'a', 'l', 'g', 'o', 'r', 'i', 't', 'h', 'm', ':', ' '] + self.name@);
        r
    }
}

/// Selects the algorithm named by `name`, ignoring ASCII case: `sha256` or
/// `md5`. Any other name is an error that carries the name.
pub fn parse_algorithm(name: &str) -> (r: Result<ChecksumAlgorithm, UnsupportedAlgorithm>)
    ensures
        algorithm_named(name@) matches Some(alg) ==> r == Ok::<ChecksumAlgorithm, UnsupportedAlgorithm>(alg),
        algorithm_named(name@) is None ==> (r matches Err(e) && e.name@ == name@),
{
    let sha = "sha256";
    let md = "md5";
    proof {
        reveal_strlit("sha256");
        reveal_strlit("md5");
        assert(sha@ =~= algorithm_name(ChecksumAlgorithm::Sha256));
        assert(md@ =~= algorithm_name(ChecksumAlgorithm::Md5));
    }
    if equals_ignoring_ascii_case(name, sha) {
        Ok(ChecksumAlgorithm::Sha256)
    } else if equals_ignoring_ascii_case(name, md) {
        Ok(ChecksumAlgorithm::Md5)
    } else {
        Err(UnsupportedAlgorithm { name: String::from_str(name) })
    }
}

/// A digest being computed over a stream of chunks.
pub enum ChecksumStream {
    Sha256(Sha256State),
    Md5(Md5State),
}

impl ChecksumStream {
    /// The algorithm this stream computes.
    pub open spec fn algorithm(&self) -> ChecksumAlgorithm {
        match self {
            ChecksumStream::Sha256(_) => ChecksumAlgorithm::Sha256,
            ChecksumStream::Md5(_) => ChecksumAlgorithm::Md5,
        }
    }

    /// The bytes consumed so far.
    pub open spec fn consumed(&self) -> Seq<u8> {
        match self {
            ChecksumStream::Sha256(s) => sha256_input(*s),
            ChecksumStream::Md5(s) => md5_input(*s),
        }
    }

    /// A stream for `alg` that has consumed nothing.
    pub fn new(alg: ChecksumAlgorithm) -> (r: ChecksumStream)
        ensures
            r.algorithm() == alg,
            r.consumed() == Seq::<u8>::empty(),
    {
        match alg {
            ChecksumAlgorithm::Sha256 => ChecksumStream::Sha256(sha256_start()),
            ChecksumAlgorithm::Md5 => ChecksumStream::Md5(md5_start()),
        }
    }

    /// Consumes the next chunk.
    pub fn update(&mut self, chunk: &[u8])
        ensures
            final(self).algorithm() == old(self).algorithm(),
            final(self).consumed() == old(self).consumed() + chunk@,
    {
        match self {
            ChecksumStream::Sha256(s) => sha256_feed(s, chunk),
            ChecksumStream::Md5(s) => md5_feed(s, chunk),
        }
    }

    /// The lowercase hex digest of everything consumed.
    pub fn finish(self) -> (r: String)
        ensures
            r@ == hex_text(digest_of(self.algorithm(), self.consumed())),
    {
        let bytes = match self {
            ChecksumStream::Sha256(s) => sha256_finish(s),
            ChecksumStream::Md5(s) => md5_finish(s),
        };
        to_hex(bytes.as_slice())
    }
}

/// A verification in progress: the digest of the file read so far and the
/// value it must match. It is only created once the algorithm is known to be
/// supported, so no file is read for an unsupported one.
pub struct Verification {
    pub stream: ChecksumStream,
    pub expected: String,
}

impl Verification {
    /// Starts a verification against `expected` with the algorithm named by
    /// `algorithm`, ignoring ASCII case.
    pub fn start(expected: &str, algorithm: &str) -> (r: Result<Verification, UnsupportedAlgorithm>)
        ensures
            algorithm_named(algorithm@) matches Some(alg) ==> (r matches Ok(v) && v.stream.algorithm()
                == alg && v.stream.consumed() == Seq::<u8>::empty() && v.expected@ == expected@),
            algorithm_named(algorithm@) is None ==> (r matches Err(e) && e.name@ == algorithm@),
    {
        match parse_algorithm(algorithm) {
            Ok(alg) => Ok(Verification { stream: ChecksumStream::new(alg), expected: String::from_str(expected) }),
            Err(e) => Err(e),
        }
    }

    /// Consumes the next chunk of the file.
    pub fn feed(&mut self, chunk: &[u8])
        ensures
            final(self).stream.algorithm() == old(self).stream.algorithm(),
            final(self).stream.consumed() == old(self).stream.consumed() + chunk@,
            final(self).expected == old(self).expected,
    {
        self.stream.update(chunk);
    }

    /// Whether the digest of everything consumed matches the expected value,
    /// ignoring ASCII case.
    pub fn conclude(self) -> (r: bool)
        ensures
            r == checksum_verdict(self.stream.algorithm(), self.stream.consumed(), self.expected@),
    {
        let computed = self.stream.finish();
        equals_ignoring_ascii_case(computed.as_str(), self.expected.as_str())
    }
}

/// A file always passes verification against its own digest, rendered as
/// hex in either case.
pub proof fn lemma_own_digest_verifies(alg: ChecksumAlgorithm, data: Seq<u8>)
    ensures
        checksum_verdict(alg, data, hex_text(digest_of(alg, data))),
{
}

/// Algorithm names that differ only in the case of ASCII letters select the
/// same algorithm, or are refused alike.
pub proof fn lemma_algorithm_name_ignores_case(a: Seq<char>, b: Seq<char>)
    requires
        eq_ignore_ascii_case(a, b),
    ensures
        algorithm_named(a) == algorithm_named(b),
{
    assert forall|t: Seq<char>| eq_ignore_ascii_case(a, t) == eq_ignore_ascii_case(b, t) by {
        if eq_ignore_ascii_case(a, t) {
            assert forall|i: int| 0 <= i < b.len() implies fold_ascii(#[trigger] b[i]) == fold_ascii(t[i]) by {
                assert(fold_ascii(a[i]) == fold_ascii(b[i]));
            }
        }
        if eq_ignore_ascii_case(b, t) {
            assert forall|i: int| 0 <= i < a.len() implies fold_ascii(#[trigger] a[i]) == fold_ascii(t[i]) by {
                assert(fold_ascii(a[i]) == fold_ascii(b[i]));
            }
        }
    }
}

} // verus!
