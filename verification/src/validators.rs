//! Field rules and the report that collects their violations.

use vstd::prelude::*;

verus! {

/// Mathematical value of a run of strings.
pub open spec fn texts(strings: Seq<String>) -> Seq<Seq<char>> {
    strings.map_values(|s: String| s@)
}

/// What the `validator` crate's email rule answers for a string.
pub uninterp spec fn email_shaped(text: Seq<char>) -> bool;

/// Calls `ValidateEmail::validate_email` of the `validator` crate. For a
/// string the answer depends on its characters alone, and a string without
/// an `@` is never accepted.
#[verifier::external_body]
pub(crate) fn validate_email(text: &str) -> (ok: bool)
    ensures
        ok == email_shaped(text@),
        ok ==> text@.contains('@'),
{
    validator::ValidateEmail::validate_email(&text)
}

/// Calls `ValidateLength::validate_length` of the `validator` crate with a
/// lower bound only: the string passes when it has at least `min` characters.
#[verifier::external_body]
pub(crate) fn validate_length(text: &str, min: u64) -> (ok: bool)
    ensures
        ok == (text@.len() >= min),
{
    validator::ValidateLength::validate_length(text, Some(min), None, None)
}

/// The violations found on one field, in the order they were found.
#[derive(Debug, PartialEq, Eq)]
struct FieldErrors {
    field: String,
    messages: Vec<String>,
}

/// No field has two entries, and no entry is without a message.
spec fn grouped(errors: Seq<FieldErrors>) -> bool {
    &&& forall|i: int, j: int| 0 <= i < j < errors.len() ==> errors[i].field@ != errors[j].field@
    &&& forall|i: int| 0 <= i < errors.len() ==> errors[i].messages.len() > 0
}

/// The violations found on a request: for each offending field its messages.
#[derive(Debug, PartialEq, Eq)]
pub struct Validation {
    errors: Vec<FieldErrors>,
}

impl Validation {
    /// `i` is the entry of `field`.
    spec fn entry_of(&self, field: Seq<char>, i: int) -> bool {
        0 <= i < self.errors.len() && self.errors[i].field@ == field
    }

    /// No field has two entries, and no entry is without a message.
    #[verifier::type_invariant]
    spec fn inv(&self) -> bool {
        grouped(self.errors@)
    }

    /// The messages by field.
    pub closed spec fn view(&self) -> Map<Seq<char>, Seq<Seq<char>>> {
        Map::new(
            |field: Seq<char>| exists|i: int| self.entry_of(field, i),
            |field: Seq<char>| texts(self.errors[choose|i: int| self.entry_of(field, i)].messages@),
        )
    }

    /// The messages of one field; none where the field has no violation.
    pub open spec fn messages_of(&self, field: Seq<char>) -> Seq<Seq<char>> {
        if self@.contains_key(field) {
            self@[field]
        } else {
            Seq::empty()
        }
    }

    /// A report without violations.
    pub fn new() -> (report: Validation)
        ensures
            report@ == Map::<Seq<char>, Seq<Seq<char>>>::empty(),
    {
        let report = Validation { errors: Vec::new() };
        assert(report@ =~= Map::empty());
        report
    }

    /// Index of the entry of `field`.
    fn entry(&self, field: &String) -> (found: Option<usize>)
        ensures
            match found {
                Some(i) => self.entry_of(field@, i as int),
                None => forall|j: int| !self.entry_of(field@, j),
            },
    {
        let mut i: usize = 0;
        while i < self.errors.len()
            invariant
                i <= self.errors.len(),
                forall|j: int| 0 <= j < i ==> self.errors[j].field@ != field@,
            decreases self.errors.len() - i,
        {
            if self.errors[i].field == *field {
                return Some(i);
            }
            i += 1;
        }
        None
    }

    /// Records one more violation of `field`, after those already recorded.
    pub fn add(&mut self, field: &str, message: &str)
        ensures
            final(self)@ == old(self)@.insert(field@, old(self).messages_of(field@).push(message@)),
    {
        proof {
            use_type_invariant(&*self);
        }
        let field = field.to_owned();
        let message = message.to_owned();
        let found = self.entry(&field);
        let mut errors: Vec<FieldErrors> = Vec::new();
        core::mem::swap(&mut self.errors, &mut errors);
        let ghost before = errors@;
        match found {
            Some(i) => {
                errors[i].messages.push(message);
                assert(forall|k: int| 0 <= k < before.len() && k != i ==> errors@[k] == before[k]);
            },
            None => {
                let mut messages: Vec<String> = Vec::new();
                messages.push(message);
                errors.push(FieldErrors { field, messages });
                assert forall|i: int, j: int| 0 <= i < j < errors@.len() implies errors@[i].field@
                    != errors@[j].field@ by {
                    if j == before.len() {
                        assert(!old(self).entry_of(field@, i));
                    }
                }
            },
        }
        assert(grouped(errors@));
        self.errors = errors;
        proof {
            let added = old(self).messages_of(field@).push(message@);
            let at = match found {
                Some(i) => i as int,
                None => before.len() as int,
            };
            assert(self.entry_of(field@, at));
            assert(forall|f: Seq<char>, k: int| old(self).entry_of(f, k) ==> self.entry_of(f, k));
            assert(forall|f: Seq<char>, k: int|
                self.entry_of(f, k) && k != at ==> old(self).entry_of(f, k));
            assert(texts(self.errors[at].messages@) =~= added);
            assert forall|f: Seq<char>| #[trigger]
                self@.contains_key(f) implies old(self)@.insert(field@, added).contains_key(f)
                && self@[f] == old(self)@.insert(field@, added)[f] by {
                let k = choose|i: int| self.entry_of(f, i);
                if f != field@ {
                    let k0 = choose|i: int| old(self).entry_of(f, i);
                    assert(old(self).entry_of(f, k));
                    assert(self.entry_of(f, k0));
                }
            }
            assert(self@ =~= old(self)@.insert(field@, added));
        }
    }

    /// Whether no violation was recorded.
    pub fn is_empty(&self) -> (empty: bool)
        ensures
            empty <==> self@ == Map::<Seq<char>, Seq<Seq<char>>>::empty(),
    {
        let empty = self.errors.len() == 0;
        proof {
            if empty {
                assert(self@ =~= Map::empty());
            } else {
                assert(self.entry_of(self.errors[0].field@, 0));
                assert(self@.contains_key(self.errors[0].field@));
            }
        }
        empty
    }

    /// The fields that have a violation, each once.
    pub fn fields(&self) -> (fields: Vec<String>)
        ensures
            forall|field: Seq<char>| texts(fields@).contains(field) <==> self@.contains_key(field),
            texts(fields@).no_duplicates(),
    {
        proof {
            use_type_invariant(self);
        }
        let mut fields: Vec<String> = Vec::new();
        let mut i: usize = 0;
        while i < self.errors.len()
            invariant
                i <= self.errors.len(),
                fields.len() == i,
                forall|j: int| 0 <= j < i ==> fields[j] == self.errors[j].field,
            decreases self.errors.len() - i,
        {
            fields.push(self.errors[i].field.clone());
            i += 1;
        }
        proof {
            let names = texts(fields@);
            assert forall|field: Seq<char>| names.contains(field) <==> self@.contains_key(
                field,
            ) by {
                if names.contains(field) {
                    let j = choose|j: int| 0 <= j < names.len() && names[j] == field;
                    assert(self.entry_of(field, j));
                }
                if self@.contains_key(field) {
                    let j = choose|j: int| self.entry_of(field, j);
                    assert(names[j] == field);
                }
            }
        }
        fields
    }

    /// The messages recorded for `field`, in order.
    pub fn messages(&self, field: &str) -> (messages: Vec<String>)
        ensures
            texts(messages@) == self.messages_of(field@),
    {
        proof {
            use_type_invariant(self);
        }
        let field = field.to_owned();
        let mut messages: Vec<String> = Vec::new();
        match self.entry(&field) {
            Some(i) => {
                let mut k: usize = 0;
                while k < self.errors[i].messages.len()
                    invariant
                        i < self.errors.len(),
                        k <= self.errors[i as int].messages.len(),
                        messages.len() == k,
                        forall|j: int| 0 <= j < k ==> messages[j] == self.errors[i as int].messages[j],
                    decreases self.errors[i as int].messages.len() - k,
                {
                    messages.push(self.errors[i].messages[k].clone());
                    k += 1;
                }
                assert(texts(messages@) =~= texts(self.errors[i as int].messages@));
            },
            None => {
                assert(texts(messages@) =~= Seq::empty());
            },
        }
        messages
    }
}

} // verus!
