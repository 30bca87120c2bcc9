//! Profile metadata: a host map from texts to texts, and its limits.
use vstd::prelude::*;

verus! {

/// Most entries that a metadata map may have.
pub const MAX_METADATA_SIZE: u32 = 20;

/// Longest metadata key, in bytes.
pub const MAX_METADATA_KEY_LEN: u32 = 64;

/// Longest metadata value, in bytes.
pub const MAX_METADATA_VALUE_LEN: u32 = 512;

/// `soroban_sdk::Map`: a handle to a map that the contract host keeps.
#[verifier::external_type_specification]
#[verifier::external_body]
#[verifier::reject_recursive_types(K)]
#[verifier::reject_recursive_types(V)]
pub struct ExHostMap<K, V>(soroban_sdk::Map<K, V>);

/// `soroban_sdk::String`: a handle to bytes that the contract host keeps.
#[verifier::external_type_specification]
#[verifier::external_body]
pub struct ExHostString(soroban_sdk::String);

/// The metadata of a profile.
pub type Metadata = soroban_sdk::Map<soroban_sdk::String, soroban_sdk::String>;

/// Metadata entries: key and value as bytes, or nothing where the host map
/// holds something else than a pair of texts.
pub type MetadataEntries = Seq<Option<(Seq<u8>, Seq<u8>)>>;

/// The entries of a metadata map, in the host's key order.
///
/// The contents of a handle never change: an update of a `soroban_sdk::Map`
/// makes a new host map and lets the handle point to it.
pub uninterp spec fn metadata_entries(
    m: soroban_sdk::Map<soroban_sdk::String, soroban_sdk::String>,
) -> Seq<Option<(Seq<u8>, Seq<u8>)>>;

/// The bytes of a host text.
pub uninterp spec fn text_bytes(s: soroban_sdk::String) -> Seq<u8>;

/// `soroban_sdk::Map::len`: the number of entries.
#[verifier::external_body]
fn metadata_len(m: &Metadata) -> (r: u32)
    ensures
        r == metadata_entries(*m).len(),
{
    m.len()
}

/// `soroban_sdk::Map::try_iter`, advanced to one entry: the key and the value
/// at that position of the key order, or nothing where they are not both texts.
#[verifier::external_body]
fn metadata_entry(m: &Metadata, i: u32) -> (r: Option<(soroban_sdk::String, soroban_sdk::String)>)
    requires
        i < metadata_entries(*m).len(),
    ensures
        match r {
            Some((key, value)) => metadata_entries(*m)[i as int] == Some(
                (text_bytes(key), text_bytes(value)),
            ),
            None => metadata_entries(*m)[i as int] is None,
        },
{
    m.try_iter().nth(i as usize).and_then(|entry| entry.ok())
}

/// `soroban_sdk::String::len`: the number of bytes.
#[verifier::external_body]
fn text_len(s: &soroban_sdk::String) -> (r: u32)
    ensures
        r == text_bytes(*s).len(),
{
    s.len()
}

/// What is wrong with a metadata map.
#[derive(Clone, Copy, Debug, PartialEq, Eq)]
pub enum MetadataFault {
    /// It is too large, or holds an empty or overlong text.
    Invalid,
    /// It holds something else than texts.
    Malformed,
}

/// Whether a key and a value of these lengths are within the limits.
pub open spec fn lengths_within_limits(key_len: int, value_len: int) -> bool {
    &&& 0 < key_len <= MAX_METADATA_KEY_LEN
    &&& 0 < value_len <= MAX_METADATA_VALUE_LEN
}

/// Whether a key and a value are within the limits.
pub open spec fn within_limits(key: Seq<u8>, value: Seq<u8>) -> bool {
    lengths_within_limits(key.len() as int, value.len() as int)
}

/// What is wrong with a metadata entry.
pub open spec fn entry_fault(entry: Option<(Seq<u8>, Seq<u8>)>) -> Option<MetadataFault> {
    match entry {
        Some((key, value)) => if within_limits(key, value) {
            None
        } else {
            Some(MetadataFault::Invalid)
        },
        None => Some(MetadataFault::Malformed),
    }
}

/// The first thing that is wrong with the entries from position `i` on.
pub open spec fn first_fault(entries: MetadataEntries, i: nat) -> Option<MetadataFault>
    decreases entries.len() - i,
{
    if i >= entries.len() {
        None
    } else if entry_fault(entries[i as int]) is Some {
        entry_fault(entries[i as int])
    } else {
        first_fault(entries, i + 1)
    }
}

/// What is wrong with a metadata map: its size, or else the first entry in key
/// order that is not a pair of texts within the limits.
pub open spec fn metadata_fault(entries: MetadataEntries) -> Option<MetadataFault> {
    if entries.len() > MAX_METADATA_SIZE {
        Some(MetadataFault::Invalid)
    } else {
        first_fault(entries, 0)
    }
}

/// Checks an entry by the lengths of its key and its value; no lengths stand
/// for something else than texts.
pub fn check_entry(lengths: Option<(u32, u32)>) -> (r: Result<(), MetadataFault>)
    ensures
        r == (match lengths {
            Some((key_len, value_len)) => if lengths_within_limits(
                key_len as int,
                value_len as int,
            ) {
                Ok::<(), MetadataFault>(())
            } else {
                Err(MetadataFault::Invalid)
            },
            None => Err(MetadataFault::Malformed),
        }),
{
    match lengths {
        Some((key_len, value_len)) => {
            if key_len == 0 || value_len == 0 {
                return Err(MetadataFault::Invalid);
            }
            if key_len > MAX_METADATA_KEY_LEN || value_len > MAX_METADATA_VALUE_LEN {
                return Err(MetadataFault::Invalid);
            }
            Ok(())
        },
        None => Err(MetadataFault::Malformed),
    }
}

/// Checks a metadata map against the limits.
pub fn validate_metadata(metadata: &Metadata) -> (r: Result<(), MetadataFault>)
    ensures
        match metadata_fault(metadata_entries(*metadata)) {
            Some(fault) => r == Err::<(), MetadataFault>(fault),
            None => r is Ok,
        },
{
    let len: u32 = metadata_len(metadata);
    if len > MAX_METADATA_SIZE {
        return Err(MetadataFault::Invalid);
    }
    let mut i: u32 = 0;
    while i < len
        invariant
            i <= len <= MAX_METADATA_SIZE,
            len == metadata_entries(*metadata).len(),
            first_fault(metadata_entries(*metadata), 0) == first_fault(
                metadata_entries(*metadata),
                i as nat,
            ),
        decreases len - i,
    {
        let lengths = match metadata_entry(metadata, i) {
            Some((key, value)) => Some((text_len(&key), text_len(&value))),
            None => None,
        };
        if let Err(fault) = check_entry(lengths) {
            return Err(fault);
        }
        i += 1;
    }
    Ok(())
}

/// A metadata map is accepted exactly when it has at most the allowed number
/// of entries and each of them is a pair of texts within the limits.
pub proof fn law_metadata_accepted_iff(entries: MetadataEntries)
    ensures
        metadata_fault(entries) is None <==> {
            &&& entries.len() <= MAX_METADATA_SIZE
            &&& forall|i: int|
                0 <= i < entries.len() ==> (#[trigger] entries[i] matches Some((key, value))
                    && within_limits(key, value))
        },
{
    lemma_no_fault_from(entries, 0);
}

proof fn lemma_no_fault_from(entries: MetadataEntries, from: nat)
    ensures
        first_fault(entries, from) is None <==> forall|i: int|
            from <= i < entries.len() ==> (#[trigger] entries[i] matches Some((key, value))
                && within_limits(key, value)),
    decreases entries.len() - from,
{
    if from < entries.len() {
        lemma_no_fault_from(entries, from + 1);
        let here = entries[from as int];
        if first_fault(entries, from) is None {
            assert forall|i: int| from <= i < entries.len() implies (
            #[trigger] entries[i] matches Some((key, value)) && within_limits(key, value)) by {
                if i == from {
                    assert(entry_fault(here) is None);
                }
            }
        }
    }
}

/// The first fault among the entries is the fault of the first faulty entry.
pub proof fn lemma_first_fault_at(entries: MetadataEntries, from: nat, i: nat)
    requires
        from <= i < entries.len(),
        forall|j: int| from <= j < i ==> entry_fault(#[trigger] entries[j]) is None,
        entry_fault(entries[i as int]) is Some,
    ensures
        first_fault(entries, from) == entry_fault(entries[i as int]),
    decreases i - from,
{
    if from < i {
        assert(entry_fault(entries[from as int]) is None);
        lemma_first_fault_at(entries, from + 1, i);
    }
}

/// A key and a value are within the limits exactly when they are 1 to 64 and 1
/// to 512 bytes long.
pub proof fn law_limits_are_in_bytes(key_len: int, value_len: int)
    ensures
        lengths_within_limits(key_len, value_len) <==> 1 <= key_len <= 64 && 1 <= value_len <= 512,
{
}

/// Whether an entry is a pair of texts of 1 to 64 and 1 to 512 bytes.
pub open spec fn sound_entry(entry: Option<(Seq<u8>, Seq<u8>)>) -> bool {
    entry matches Some((key, value)) && 1 <= key.len() <= 64 && 1 <= value.len() <= 512
}

/// What is wrong with a metadata map: more than twenty entries, or else the
/// first entry that is no pair of texts or is out of the limits.
pub proof fn law_fault_is_that_of_the_first_faulty_entry(entries: MetadataEntries, i: int)
    ensures
        ({
            let fault = metadata_fault(entries);
            &&& entries.len() > 20 ==> fault == Some(MetadataFault::Invalid)
            &&& entries.len() <= 20 && 0 <= i < entries.len() && !sound_entry(entries[i]) && (forall|
                j: int,
            |
                0 <= j < i ==> sound_entry(#[trigger] entries[j])) ==> fault == if entries[i] is None {
                Some(MetadataFault::Malformed)
            } else {
                Some(MetadataFault::Invalid)
            }
            &&& fault is None <==> entries.len() <= 20 && forall|j: int|
                0 <= j < entries.len() ==> sound_entry(#[trigger] entries[j])
        }),
{
    lemma_no_fault_from(entries, 0);
    if entries.len() <= 20 && 0 <= i < entries.len() && !sound_entry(entries[i]) && (forall|j: int|
        0 <= j < i ==> sound_entry(#[trigger] entries[j])) {
        assert forall|j: int| 0 <= j < i implies entry_fault(#[trigger] entries[j]) is None by {
            assert(sound_entry(entries[j]));
        }
        lemma_first_fault_at(entries, 0, i as nat);
    }
}

} // verus!
