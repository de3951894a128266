//! What the two assembly generators share: the statically inferred value
//! kind, the generation errors, the generator state model, variable-slot
//! hashing, and joining emitted lines into the final text.
use vstd::prelude::*;

use vstd::string::StringExecFns;
use vstd::string::StringSliceAdditionalSpecFns;

verus! {

/// The statically inferred kind of the value an expression leaves in the
/// result register.
#[derive(Debug, Clone, Copy, PartialEq, Eq, Structural)]
pub enum ValueType {
    Integer,
    Float,
    Str,
    Boolean,
    Null,
}

/// Why native generation was rejected; no partial output is usable.
#[derive(Debug, Clone, PartialEq)]
pub enum NativeGenError {
    /// The left side of an assignment is not an identifier.
    AssignToNonIdentifier,
    /// A call to anything but a member of the built-in `io` module.
    UnknownFunction,
    /// A call to an `io` member other than `print` or `printf`.
    UnknownIoFunction(String),
    /// A node shape the generators do not lower.
    UnsupportedExpression,
    /// An operator outside the generator's supported set.
    UnsupportedOperator,
    /// String concatenation, which this generator cannot lower.
    ConcatenationUnsupported,
}

impl NativeGenError {
    /// The diagnostic message for this error.
    pub open spec fn message_spec(self) -> Seq<char> {
        match self {
            NativeGenError::AssignToNonIdentifier =>
                "Left side of assignment must be an identifier"@,
            NativeGenError::UnknownFunction => "Unknown function"@,
            NativeGenError::UnknownIoFunction(n) => "Unknown io function: "@ + n@,
            NativeGenError::UnsupportedExpression => "Unsupported expression"@,
            NativeGenError::UnsupportedOperator => "Unsupported binary operator"@,
            NativeGenError::ConcatenationUnsupported =>
                "String concatenation (..) not yet supported in native compilation. Use VM mode for this feature."@,
        }
    }

    /// Renders the diagnostic message.
    pub fn message(&self) -> (r: String)
        ensures
            r@ == self.message_spec(),
    {
        match self {
            NativeGenError::AssignToNonIdentifier => String::from_str(
                "Left side of assignment must be an identifier",
            ),
            NativeGenError::UnknownFunction => String::from_str("Unknown function"),
            NativeGenError::UnknownIoFunction(n) => {
                let mut s = String::from_str("Unknown io function: ");
                s.append(n.as_str());
                s
            },
            NativeGenError::UnsupportedExpression => String::from_str("Unsupported expression"),
            NativeGenError::UnsupportedOperator => String::from_str("Unsupported binary operator"),
            NativeGenError::ConcatenationUnsupported => String::from_str(
                "String concatenation (..) not yet supported in native compilation. Use VM mode for this feature.",
            ),
        }
    }
}

/// The state a generator threads through its walk: the emitted lines, the
/// label counter, and the two label-keyed literal pools.
pub ghost struct GenState {
    pub lines: Seq<Seq<char>>,
    pub labels: u64,
    pub strings: Seq<(Seq<char>, Seq<char>)>,
    pub floats: Seq<(Seq<char>, Seq<char>)>,
}

/// The character sequences of a vector of lines.
pub open spec fn texts(v: Seq<String>) -> Seq<Seq<char>> {
    v.map_values(|s: String| s@)
}

/// The character sequences of a label-keyed literal pool.
pub open spec fn pool_texts(v: Seq<(String, String)>) -> Seq<(Seq<char>, Seq<char>)> {
    v.map_values(|p: (String, String)| (p.0@, p.1@))
}

/// The lines from `idx` on, joined by single newlines (none trailing).
pub open spec fn joined_lines(lines: Seq<Seq<char>>, idx: int) -> Seq<char>
    decreases lines.len() - idx,
{
    if idx < 0 || idx >= lines.len() {
        Seq::empty()
    } else if idx == lines.len() - 1 {
        lines[idx]
    } else {
        lines[idx] + seq!['\n'] + joined_lines(lines, idx + 1)
    }
}

/// Joins emitted lines with newlines into the final assembly text.
pub fn join_output(v: &Vec<String>) -> (r: String)
    ensures
        r@ == joined_lines(texts(v@), 0),
{
    let mut s = String::new();
    let ghost lines = texts(v@);
    let total = v.len();
    let mut idx: usize = 0;
    proof {
        assert(Seq::<char>::empty() + joined_lines(lines, 0) =~= joined_lines(lines, 0));
    }
    while idx < total
        invariant
            idx <= total,
            total == v@.len(),
            lines == texts(v@),
            s@ + joined_lines(lines, idx as int) == joined_lines(lines, 0),
        decreases total - idx,
    {
        let ghost before = s@;
        s.append(v[idx].as_str());
        if idx + 1 < total {
            crate::text::push_char(&mut s, '\n');
        }
        proof {
            if idx + 1 < total {
                assert(s@ =~= before + (lines[idx as int] + seq!['\n']));
                assert((before + (lines[idx as int] + seq!['\n'])) + joined_lines(
                    lines,
                    idx + 1,
                ) =~= before + (lines[idx as int] + seq!['\n'] + joined_lines(lines, idx + 1)));
            } else {
                assert(s@ =~= before + lines[idx as int]);
                assert(joined_lines(lines, idx as int) == lines[idx as int]);
                assert((before + lines[idx as int]) + joined_lines(lines, idx + 1) =~= before
                    + lines[idx as int]);
            }
        }
        idx = idx + 1;
    }
    s
}

/// The 31-based polynomial hash of a name's bytes, reduced modulo the
/// fixed number of storage slots: the slot a variable name addresses.
pub open spec fn hash_of_bytes(bytes: Seq<u8>) -> u64
    decreases bytes.len(),
{
    if bytes.len() == 0 {
        0
    } else {
        (((hash_of_bytes(bytes.drop_last()) * 31) % 0x1_0000_0000_0000_0000 + bytes.last())
            % 0x1_0000_0000_0000_0000) as u64
    }
}

/// The storage slot a variable name addresses: the hash of its UTF-8
/// bytes, modulo 1000.  Two distinct names with equal hash modulo 1000
/// address the same slot.
pub open spec fn slot_of_name(name: Seq<char>) -> nat {
    (hash_of_bytes(vstd::utf8::encode_utf8(name)) % 1000) as nat
}

/// The storage slot of a variable name.
pub fn hash_name(name: &str) -> (slot: usize)
    ensures
        slot == slot_of_name(name@),
        slot < 1000,
{
    let bytes: &[u8] = name.as_bytes();
    let mut hash: u64 = 0;
    let mut i: usize = 0;
    while i < bytes.len()
        invariant
            i <= bytes.len(),
            bytes@ == name.spec_bytes(),
            hash == hash_of_bytes(bytes@.take(i as int)),
        decreases bytes.len() - i,
    {
        proof {
            assert(bytes@.take(i + 1).drop_last() =~= bytes@.take(i as int));
            assert(bytes@.take(i + 1).last() == bytes@[i as int]);
        }
        hash = hash.wrapping_mul(31).wrapping_add(bytes[i] as u64);
        i = i + 1;
    }
    proof {
        assert(bytes@.take(bytes@.len() as int) =~= bytes@);
    }
    (hash % 1000) as usize
}

/// Two distinct variable names whose hashes agree modulo 1000 address the
/// same native storage slot: the fixed hashed storage aliases them, and a
/// store through either name is read back through the other.
pub proof fn lemma_hash_collision_aliases_slot(a: Seq<char>, b: Seq<char>)
    requires
        a != b,
        hash_of_bytes(vstd::utf8::encode_utf8(a)) % 1000 == hash_of_bytes(
            vstd::utf8::encode_utf8(b),
        ) % 1000,
    ensures
        slot_of_name(a) == slot_of_name(b),
{
}

} // verus!
