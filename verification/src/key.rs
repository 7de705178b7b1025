//! Storage-key composition: a pure, deterministic mapping from a hierarchical
//! path of symbolic segments to a fixed-width storage key.
//!
//! The segments of a path are rendered to their canonical string forms,
//! joined with the `::` separator, and the joined string's digest — extended
//! to the key width — is the key. The empty path is the reserved root and
//! composes to key 0 without hashing.

use vstd::prelude::*;
use vstd::string::StrSliceExecFns;
use vstd::string::StringExecFns;

verus! {

/// A storage key: the address of one persisted value. The digest of a path's
/// canonical string, zero-extended to the 128-bit key width; 0 is the
/// reserved root key.
pub type StorageKey = u128;

/// One step of a key path: a type, field or generic-parameter name, or the
/// index of a positional field.
#[derive(Clone, Debug, PartialEq, Eq)]
pub enum Segment {
    /// A symbolic name, rendered as its own characters.
    Name(String),
    /// A positional index, rendered in decimal.
    Index(u64),
}

/// A path segment was malformed at construction time.
#[derive(Clone, Copy, Debug, PartialEq, Eq, Structural)]
pub enum PathConstructionError {
    /// A name segment was empty where a name is required.
    EmptyName,
    /// A name segment contains the reserved `::` separator.
    ContainsSeparator,
}

/// The decimal digit character for `d < 10`.
pub open spec fn digit_char(d: nat) -> char {
    if d == 0 {
        '0'
    } else if d == 1 {
        '1'
    } else if d == 2 {
        '2'
    } else if d == 3 {
        '3'
    } else if d == 4 {
        '4'
    } else if d == 5 {
        '5'
    } else if d == 6 {
        '6'
    } else if d == 7 {
        '7'
    } else if d == 8 {
        '8'
    } else {
        '9'
    }
}

/// The canonical decimal rendering of `n`, most significant digit first,
/// without leading zeros (`0` renders as "0").
pub open spec fn decimal_chars(n: nat) -> Seq<char>
    decreases n,
{
    if n < 10 {
        seq![digit_char(n)]
    } else {
        decimal_chars(n / 10) + seq![digit_char(n % 10)]
    }
}

/// The canonical character form of one segment.
pub open spec fn segment_chars(s: Segment) -> Seq<char> {
    match s {
        Segment::Name(n) => n@,
        Segment::Index(i) => decimal_chars(i as nat),
    }
}

/// The reserved separator placed between joined segments.
pub open spec fn separator_chars() -> Seq<char> {
    seq![':', ':']
}

/// Whether the characters contain the two-character separator anywhere.
pub open spec fn has_separator(s: Seq<char>) -> bool {
    exists|i: int| 0 <= i && i + 1 < s.len() && #[trigger] s[i] == ':' && s[i + 1] == ':'
}

/// The canonical string of a whole path: the canonical forms of its segments,
/// in order, joined with the separator.
pub open spec fn canonical_chars(path: Seq<Segment>) -> Seq<char>
    decreases path.len(),
{
    if path.len() == 0 {
        Seq::empty()
    } else if path.len() == 1 {
        segment_chars(path[0])
    } else {
        canonical_chars(path.drop_last()) + separator_chars() + segment_chars(path.last())
    }
}

/// The digest of a canonical string, as the hashing primitive computes it.
pub uninterp spec fn key_digest(s: Seq<char>) -> u32;

/// The key a path composes to: the root key for the empty path, otherwise
/// the digest of the canonical string, extended to the key width.
pub open spec fn compose_spec(path: Seq<Segment>) -> StorageKey {
    if path.len() == 0 {
        0
    } else {
        key_digest(canonical_chars(path)) as StorageKey
    }
}

/// Relies on `ink_primitives::KeyComposer::from_str`: the XXH32 digest (seed
/// 0) of the string's UTF-8 bytes, a pure function of the characters alone;
/// for the empty string it returns 0 without hashing.
#[verifier::external_body]
fn digest_str(s: &str) -> (r: u32)
    ensures
        r == key_digest(s@),
        s@.len() == 0 ==> r == 0,
{
    ink_primitives::KeyComposer::from_str(s)
}

impl Segment {
    /// A segment is well formed when a name is non-empty and free of the
    /// separator; an index always is.
    pub open spec fn wf(self) -> bool {
        match self {
            Segment::Name(n) => n@.len() > 0 && !has_separator(n@),
            Segment::Index(_) => true,
        }
    }

    /// Validated name segment: rejects the empty string and a name holding
    /// the reserved separator, so that a malformed name never reaches a path.
    pub fn name(s: String) -> (r: Result<Segment, PathConstructionError>)
        ensures
            r is Ok <==> (s@.len() > 0 && !has_separator(s@)),
            r matches Ok(seg) ==> seg == Segment::Name(s) && seg.wf(),
            r matches Err(e) ==> (e == PathConstructionError::EmptyName <==> s@.len() == 0) && (e
                == PathConstructionError::ContainsSeparator <==> (s@.len() > 0 && has_separator(
                s@,
            ))),
    {
        let n = s.as_str().unicode_len();
        if n == 0 {
            return Err(PathConstructionError::EmptyName);
        }
        let mut i: usize = 0;
        while i < n - 1
            invariant
                n == s@.len(),
                1 <= n,
                i <= n,
                forall|j: int| 0 <= j < i ==> !(#[trigger] s@[j] == ':' && s@[j + 1] == ':'),
            decreases n - i,
        {
            if s.as_str().get_char(i) == ':' && s.as_str().get_char(i + 1) == ':' {
                return Err(PathConstructionError::ContainsSeparator);
            }
            i += 1;
        }
        Ok(Segment::Name(s))
    }

    /// Positional-index segment; always well formed.
    pub fn index(i: u64) -> (r: Segment)
        ensures
            r == Segment::Index(i),
            r.wf(),
    {
        Segment::Index(i)
    }
}

/// An ordered path of segments locating one declaration inside nested
/// persistent data, built outer to inner.
#[derive(Clone, Debug, PartialEq, Eq)]
pub struct KeyPath {
    segments: Vec<Segment>,
}

impl View for KeyPath {
    type V = Seq<Segment>;

    closed spec fn view(&self) -> Seq<Segment> {
        self.segments@
    }
}

impl KeyPath {
    /// Whether every segment of the path is well formed.
    pub open spec fn wf(&self) -> bool {
        forall|i: int| 0 <= i < self@.len() ==> self@[i].wf()
    }

    /// The empty path: it addresses the root aggregate.
    pub fn new() -> (p: KeyPath)
        ensures
            p@ == Seq::<Segment>::empty(),
            p.wf(),
    {
        KeyPath { segments: Vec::new() }
    }

    /// Appends one segment, as nested declarations are visited outer to
    /// inner.
    pub fn extend(self, seg: Segment) -> (r: KeyPath)
        ensures
            r@ == self@.push(seg),
            self.wf() && seg.wf() ==> r.wf(),
    {
        let ghost old_path = self@;
        let mut segments = self.segments;
        segments.push(seg);
        let r = KeyPath { segments };
        proof {
            if seg.wf() && (forall|j: int| 0 <= j < old_path.len() ==> #[trigger] old_path[j].wf()) {
                assert forall|i: int| 0 <= i < r@.len() implies #[trigger] r@[i].wf() by {
                    if i < old_path.len() {
                        assert(r@[i] == old_path[i]);
                    } else {
                        assert(r@[i] == seg);
                    }
                }
            }
        }
        r
    }

    /// Number of segments in the path.
    pub fn len(&self) -> (n: usize)
        ensures
            n == self@.len(),
    {
        self.segments.len()
    }
}

/// The one-character string for a decimal digit.
fn digit_str(d: u64) -> (r: &'static str)
    requires
        d < 10,
    ensures
        r@ == seq![digit_char(d as nat)],
{
    let r = if d == 0 {
        "0"
    } else if d == 1 {
        "1"
    } else if d == 2 {
        "2"
    } else if d == 3 {
        "3"
    } else if d == 4 {
        "4"
    } else if d == 5 {
        "5"
    } else if d == 6 {
        "6"
    } else if d == 7 {
        "7"
    } else if d == 8 {
        "8"
    } else {
        "9"
    };
    proof {
        reveal_strlit("0");
        reveal_strlit("1");
        reveal_strlit("2");
        reveal_strlit("3");
        reveal_strlit("4");
        reveal_strlit("5");
        reveal_strlit("6");
        reveal_strlit("7");
        reveal_strlit("8");
        reveal_strlit("9");
        assert(r@ =~= seq![digit_char(d as nat)]);
    }
    r
}

/// Renders the decimal digits of `n` onto the end of `out`.
fn push_decimal(out: &mut String, n: u64)
    ensures
        final(out)@ == old(out)@ + decimal_chars(n as nat),
    decreases n,
{
    if n >= 10 {
        push_decimal(out, n / 10);
    }
    let d = digit_str(n % 10);
    out.append(d);
    proof {
        assert(final(out)@ =~= old(out)@ + decimal_chars(n as nat));
    }
}

/// One joining step: extending the joined prefix by the next segment.
proof fn lemma_canonical_step(path: Seq<Segment>, i: int)
    requires
        0 <= i < path.len(),
    ensures
        canonical_chars(path.take(i + 1)) == if i == 0 {
            segment_chars(path[0])
        } else {
            canonical_chars(path.take(i)) + separator_chars() + segment_chars(path[i])
        },
{
    let pre = path.take(i + 1);
    if i == 0 {
        assert(pre.len() == 1);
        assert(pre[0] == path[0]);
    } else {
        assert(pre.len() == i + 1);
        assert(pre.drop_last() =~= path.take(i));
        assert(pre.last() == path[i]);
    }
}

/// Builds the canonical string of a path: the segments' canonical forms
/// joined with the `::` separator.
pub fn canonical_string(path: &KeyPath) -> (r: String)
    ensures
        r@ == canonical_chars(path@),
{
    let mut out = String::new();
    let n = path.len();
    let mut i: usize = 0;
    while i < n
        invariant
            n == path@.len(),
            i <= n,
            out@ == canonical_chars(path@.take(i as int)),
        decreases n - i,
    {
        if i > 0 {
            proof {
                reveal_strlit("::");
                assert("::"@ =~= separator_chars());
            }
            out.append("::");
        }
        match &path.segments[i] {
            Segment::Name(name) => {
                out.append(name.as_str());
            },
            Segment::Index(idx) => {
                push_decimal(&mut out, *idx);
            },
        }
        proof {
            lemma_canonical_step(path@, i as int);
            assert(out@ =~= canonical_chars(path@.take(i + 1)));
        }
        i += 1;
    }
    proof {
        assert(path@.take(n as int) =~= path@);
    }
    out
}

/// Derives the storage key a path addresses: the root key 0 for the empty
/// path, otherwise the digest of the segments joined with `::`, extended to
/// the key width. Total and pure: it never validates, only joins and hashes.
pub fn compose(path: &KeyPath) -> (k: StorageKey)
    ensures
        k == compose_spec(path@),
{
    if path.len() == 0 {
        0
    } else {
        let joined = canonical_string(path);
        digest_str(joined.as_str()) as StorageKey
    }
}

/// The key of an already-joined canonical string: the digest of its
/// characters, extended to the key width; 0 for the empty string.
pub fn key_from_str(s: &str) -> (k: StorageKey)
    ensures
        k == (if s@.len() == 0 {
            0
        } else {
            key_digest(s@) as StorageKey
        }),
{
    digest_str(s) as StorageKey
}

/// Determinism: composition is a pure function of the path alone — two equal
/// paths always compose to equal keys, in any two calls.
pub proof fn lemma_compose_deterministic(p: Seq<Segment>, q: Seq<Segment>)
    requires
        p == q,
    ensures
        compose_spec(p) == compose_spec(q),
{
}

/// Root identity: the empty path composes to the root key 0, never hashed.
pub proof fn lemma_compose_root(p: Seq<Segment>)
    requires
        p.len() == 0,
    ensures
        compose_spec(p) == 0,
{
}

/// Join-then-hash equivalence: a non-empty path composes to exactly the
/// digest of its canonical string.
pub proof fn lemma_join_then_hash(path: Seq<Segment>)
    requires
        path.len() > 0,
    ensures
        compose_spec(path) == key_digest(canonical_chars(path)) as StorageKey,
{
}

} // verus!
