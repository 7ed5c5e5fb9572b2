use vstd::prelude::*;

verus! {

/// One name/value attribute of a profile or of a case note
/// (e.g. `country: UK`, `illness: not feeding well`).
#[derive(Clone, Debug, PartialEq, Eq)]
pub struct ProfileField {
    info_name: Vec<u8>,
    info_value: Vec<u8>,
}

impl View for ProfileField {
    type V = (Seq<u8>, Seq<u8>);

    closed spec fn view(&self) -> (Seq<u8>, Seq<u8>) {
        (self.info_name@, self.info_value@)
    }
}

impl ProfileField {
    pub fn new(info_name: &[u8], info_value: &[u8]) -> (r: Self)
        ensures
            r@ == (info_name@, info_value@),
    {
        ProfileField {
            info_name: vstd::slice::slice_to_vec(info_name),
            info_value: vstd::slice::slice_to_vec(info_value),
        }
    }

    pub fn info_name(&self) -> (r: &[u8])
        ensures
            r@ == self@.0,
    {
        self.info_name.as_slice()
    }

    pub fn info_value(&self) -> (r: &[u8])
        ensures
            r@ == self@.1,
    {
        self.info_value.as_slice()
    }
}

/// Which bound of an attribute list was broken.
#[derive(Clone, Copy, Debug, PartialEq, Eq, Structural)]
pub enum BoundError {
    TooManyEntries,
    NameTooLong,
    ValueTooLong,
}

/// The three limits of an attribute list: entries, name bytes, value bytes.
#[derive(Clone, Copy, Debug, PartialEq, Eq, Structural)]
pub struct FieldBounds {
    pub max_count: usize,
    pub max_name_len: usize,
    pub max_value_len: usize,
}

/// The first entry at or after `i` whose name, or else whose value, is too
/// long; the name of an entry is checked before its value.
pub open spec fn entry_error_from(s: Seq<ProfileField>, b: FieldBounds, i: int) -> Option<BoundError>
    decreases s.len() - i,
{
    if i < 0 || i >= s.len() {
        None
    } else if s[i]@.0.len() > b.max_name_len {
        Some(BoundError::NameTooLong)
    } else if s[i]@.1.len() > b.max_value_len {
        Some(BoundError::ValueTooLong)
    } else {
        entry_error_from(s, b, i + 1)
    }
}

/// What is wrong with an attribute list, if anything: an absent list is
/// always within bounds; the count is checked before the entries.
pub open spec fn field_error(list: Option<Vec<ProfileField>>, b: FieldBounds) -> Option<BoundError> {
    match list {
        None => None,
        Some(v) => if v@.len() > b.max_count {
            Some(BoundError::TooManyEntries)
        } else {
            entry_error_from(v@, b, 0)
        },
    }
}

/// Checks an optional attribute list against its bounds.
pub fn validate_fields(list: &Option<Vec<ProfileField>>, b: FieldBounds) -> (r: Result<(), BoundError>)
    ensures
        r == match field_error(*list, b) {
            None => Ok(()),
            Some(e) => Err(e),
        },
{
    match list {
        None => Ok(()),
        Some(v) => {
            if v.len() > b.max_count {
                return Err(BoundError::TooManyEntries);
            }
            let mut i: usize = 0;
            while i < v.len()
                invariant
                    0 <= i <= v@.len(),
                    v@.len() <= b.max_count,
                    *list == Some(*v),
                    entry_error_from(v@, b, 0) == entry_error_from(v@, b, i as int),
                decreases v@.len() - i,
            {
                let name_len = v[i].info_name().len();
                let value_len = v[i].info_value().len();
                assert(name_len == v@[i as int]@.0.len() && value_len == v@[i as int]@.1.len());
                if name_len > b.max_name_len {
                    assert(entry_error_from(v@, b, i as int) == Some(BoundError::NameTooLong));
                    return Err(BoundError::NameTooLong);
                }
                if value_len > b.max_value_len {
                    assert(entry_error_from(v@, b, i as int) == Some(BoundError::ValueTooLong));
                    return Err(BoundError::ValueTooLong);
                }
                i = i + 1;
            }
            Ok(())
        },
    }
}

/// A list of exactly `max_count` entries within the length bounds passes,
/// and one entry more fails for its count.
pub proof fn lemma_count_boundary(v: Vec<ProfileField>, w: Vec<ProfileField>, b: FieldBounds)
    requires
        v@.len() == b.max_count,
        w@.len() == b.max_count + 1,
        forall|i: int|
            0 <= i < v@.len() ==> (#[trigger] v@[i])@.0.len() <= b.max_name_len && v@[i]@.1.len()
                <= b.max_value_len,
    ensures
        field_error(Some(v), b) == None::<BoundError>,
        field_error(Some(w), b) == Some(BoundError::TooManyEntries),
{
    lemma_entries_within_bounds(v@, b, 0);
}

/// An entry whose name has exactly `max_name_len` bytes passes (its value
/// being within bounds), and a name one byte longer fails for its name.
pub proof fn lemma_name_boundary(long_name: ProfileField, exact_name: ProfileField, b: FieldBounds)
    requires
        b.max_count >= 1,
        exact_name@.0.len() == b.max_name_len,
        exact_name@.1.len() <= b.max_value_len,
        long_name@.0.len() == b.max_name_len + 1,
    ensures
        forall|v: Vec<ProfileField>| v@ == seq![exact_name] ==> field_error(Some(v), b) == None::<BoundError>,
        forall|v: Vec<ProfileField>|
            v@ == seq![long_name] ==> field_error(Some(v), b) == Some(BoundError::NameTooLong),
{
    assert forall|v: Vec<ProfileField>| v@ == seq![exact_name] implies field_error(Some(v), b) == None::<BoundError> by {
        assert(entry_error_from(v@, b, 1) == None::<BoundError>);
        assert(entry_error_from(v@, b, 0) == entry_error_from(v@, b, 1));
    }
    assert forall|v: Vec<ProfileField>| v@ == seq![long_name] implies field_error(Some(v), b) == Some(
        BoundError::NameTooLong,
    ) by {
        assert(v@[0] == long_name);
    }
}

proof fn lemma_entries_within_bounds(s: Seq<ProfileField>, b: FieldBounds, i: int)
    requires
        0 <= i,
        forall|j: int| 0 <= j < s.len() ==> (#[trigger] s[j])@.0.len() <= b.max_name_len && s[j]@.1.len() <= b.max_value_len,
    ensures
        entry_error_from(s, b, i) == None::<BoundError>,
    decreases s.len() - i,
{
    if i < s.len() {
        lemma_entries_within_bounds(s, b, i + 1);
    }
}

} // verus!
