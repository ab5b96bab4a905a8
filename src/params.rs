//! Parameter slots of a REST method and ordered sets of them.

use vstd::prelude::*;
use crate::text::str_eq;

verus! {

/// The HTTP verb of a method.
#[derive(Clone, Copy, PartialEq, Eq, Structural, Debug)]
pub enum RequestMethod {
    Get,
    Post,
}

/// A named value slot: pre-valued, required or optional.
#[derive(Clone, Debug)]
pub struct RestApiMethodParam {
    pub key: &'static str,
    pub value: Option<String>,
    pub is_required: bool,
}

/// A named placeholder of a path template.
#[derive(Clone, Debug)]
pub struct RestApiMethodRouteParam {
    pub key: &'static str,
    pub value: Option<String>,
}

/// An ordered collection of parameter slots. Keys are expected to be unique;
/// a lookup by key addresses the first slot that carries it.
#[derive(Clone, Debug)]
pub struct RestApiMethodParamBunch {
    pub items: Vec<RestApiMethodParam>,
}

/// Arguments handed to a request-configuration hook.
#[derive(Clone, Debug)]
pub enum RequestConfiguratorParams {
    NextKey(String),
}

/// Why a parameter operation failed; each variant names the key concerned.
#[derive(Clone, Copy, Debug)]
pub enum ParamError {
    MissingRequiredParam(&'static str),
    UnknownParam(&'static str),
    AlreadySet(&'static str),
}

/// What a parameter slot holds, as plain values.
pub struct ParamView {
    pub key: Seq<char>,
    pub value: Option<Seq<char>>,
    pub required: bool,
}

pub open spec fn opt_view(o: Option<String>) -> Option<Seq<char>> {
    match o {
        Some(s) => Some(s@),
        None => None,
    }
}

impl View for RestApiMethodParam {
    type V = ParamView;

    open spec fn view(&self) -> ParamView {
        ParamView { key: self.key@, value: opt_view(self.value), required: self.is_required }
    }
}

impl View for RestApiMethodParamBunch {
    type V = Seq<ParamView>;

    open spec fn view(&self) -> Seq<ParamView> {
        self.items@.map_values(|p: RestApiMethodParam| p@)
    }
}

/// Key/value pairs as plain text.
pub open spec fn pairs_view(v: Seq<(String, String)>) -> Seq<(Seq<char>, Seq<char>)> {
    v.map_values(|p: (String, String)| (p.0@, p.1@))
}

/// The flat key/value mapping of a parameter set, in declaration order: the
/// key of the first required slot without a value, or the pairs of every slot
/// that holds a value.
pub open spec fn serialized(ps: Seq<ParamView>) -> Result<Seq<(Seq<char>, Seq<char>)>, Seq<char>>
    decreases ps.len(),
{
    if ps.len() == 0 {
        Ok(Seq::empty())
    } else {
        let rest = serialized(ps.drop_first());
        match ps[0].value {
            Some(v) => match rest {
                Ok(t) => Ok(seq![(ps[0].key, v)] + t),
                Err(k) => Err(k),
            },
            None => if ps[0].required {
                Err(ps[0].key)
            } else {
                rest
            },
        }
    }
}

/// The pairs of every slot that holds a value, in declaration order.
pub open spec fn value_pairs(ps: Seq<ParamView>) -> Seq<(Seq<char>, Seq<char>)>
    decreases ps.len(),
{
    if ps.len() == 0 {
        Seq::empty()
    } else {
        let rest = value_pairs(ps.drop_first());
        match ps[0].value {
            Some(v) => seq![(ps[0].key, v)] + rest,
            None => rest,
        }
    }
}

/// Some slot is required and holds no value.
pub open spec fn has_missing_required(ps: Seq<ParamView>) -> bool {
    exists|i: int| 0 <= i < ps.len() && ps[i].required && ps[i].value is None
}

/// Index `i` holds the first slot named `k`.
pub open spec fn is_first_key(ps: Seq<ParamView>, k: Seq<char>, i: int) -> bool {
    0 <= i < ps.len() && ps[i].key == k && forall|j: int| 0 <= j < i ==> ps[j].key != k
}

/// No slot is named `k`.
pub open spec fn key_absent(ps: Seq<ParamView>, k: Seq<char>) -> bool {
    forall|i: int| 0 <= i < ps.len() ==> ps[i].key != k
}

/// Serialising a parameter set leaves out every unset optional slot, and fails
/// exactly when some required slot is unset, naming the first such slot.
pub proof fn lemma_serialize_law(ps: Seq<ParamView>)
    ensures
        serialized(ps) is Err <==> has_missing_required(ps),
        serialized(ps) matches Err(k) ==> exists|i: int|
            0 <= i < ps.len() && ps[i].required && ps[i].value is None && ps[i].key == k
                && forall|j: int| 0 <= j < i ==> !(ps[j].required && ps[j].value is None),
        serialized(ps) matches Ok(t) ==> t == value_pairs(ps),
    decreases ps.len(),
{
    if ps.len() > 0 {
        let tail = ps.drop_first();
        lemma_serialize_law(tail);
        assert forall|i: int| 0 <= i < tail.len() implies tail[i] == ps[i + 1] by {}
        if has_missing_required(tail) {
            let i = choose|i: int| 0 <= i < tail.len() && tail[i].required && tail[i].value is None;
            assert(ps[i + 1].required && ps[i + 1].value is None);
        }
        if has_missing_required(ps) && !(ps[0].required && ps[0].value is None) {
            let i = choose|i: int| 0 <= i < ps.len() && ps[i].required && ps[i].value is None;
            assert(tail[i - 1].required && tail[i - 1].value is None);
        }
        if let Err(k) = serialized(ps) {
            if !(ps[0].required && ps[0].value is None) {
                let i = choose|i: int|
                    0 <= i < tail.len() && tail[i].required && tail[i].value is None && tail[i].key == k
                        && forall|j: int| 0 <= j < i ==> !(tail[j].required && tail[j].value is None);
                assert(ps[i + 1].key == k);
                assert forall|j: int| 0 <= j < i + 1 implies !(ps[j].required && ps[j].value is None) by {
                    if j > 0 {
                        assert(tail[j - 1] == ps[j]);
                    }
                }
            }
        }
    }
}

impl RestApiMethodParam {
    /// A required slot that already holds `value`.
    pub fn prevalue(key: &'static str, value: String) -> (r: Self)
        ensures
            r.key == key,
            r.value == Some(value),
            r.is_required,
    {
        Self { key, value: Some(value), is_required: true }
    }

    /// A required slot without a value.
    pub fn required(key: &'static str) -> (r: Self)
        ensures
            r.key == key,
            r.value is None,
            r.is_required,
    {
        Self { key, value: None, is_required: true }
    }

    /// An optional slot without a value.
    pub fn optional(key: &'static str) -> (r: Self)
        ensures
            r.key == key,
            r.value is None,
            !r.is_required,
    {
        Self { key, value: None, is_required: false }
    }
}

impl RestApiMethodParamBunch {
    /// The index of the first slot named `key`.
    pub fn position(&self, key: &str) -> (r: Option<usize>)
        ensures
            r matches Some(i) ==> is_first_key(self@, key@, i as int),
            r is None ==> key_absent(self@, key@),
    {
        let mut i: usize = 0;
        while i < self.items.len()
            invariant
                i <= self.items@.len(),
                self@.len() == self.items@.len(),
                forall|j: int| 0 <= j < i ==> self@[j].key != key@,
            decreases self.items@.len() - i,
        {
            if str_eq(self.items[i].key, key) {
                return Some(i);
            }
            i = i + 1;
        }
        None
    }

    /// The first slot named `key`, if any.
    pub fn find(&self, key: &str) -> (r: Option<&RestApiMethodParam>)
        ensures
            r matches Some(p) ==> exists|i: int| is_first_key(self@, key@, i) && p@ == self@[i],
            r is None ==> key_absent(self@, key@),
    {
        match self.position(key) {
            Some(i) => Some(&self.items[i]),
            None => None,
        }
    }

    /// Fills the first slot named `key`; a slot may be filled once.
    pub fn set_value(&mut self, key: &'static str, value: String) -> (r: Result<(), ParamError>)
        ensures
            key_absent(old(self)@, key@) ==> r == Err::<(), ParamError>(ParamError::UnknownParam(key))
                && final(self)@ == old(self)@,
            forall|i: int| #[trigger] is_first_key(old(self)@, key@, i) ==> if old(self)@[i].value is Some {
                r == Err::<(), ParamError>(ParamError::AlreadySet(key)) && final(self)@ == old(self)@
            } else {
                r is Ok && final(self)@ == old(self)@.update(
                    i,
                    ParamView { value: Some(value@), ..old(self)@[i] },
                )
            },
    {
        match self.position(key) {
            None => Err(ParamError::UnknownParam(key)),
            Some(i) => {
                if self.items[i].value.is_some() {
                    Err(ParamError::AlreadySet(key))
                } else {
                    let slot = RestApiMethodParam {
                        key: self.items[i].key,
                        value: Some(value),
                        is_required: self.items[i].is_required,
                    };
                    self.items.set(i, slot);
                    assert(self@ =~= old(self)@.update(
                        i as int,
                        ParamView { value: Some(value@), ..old(self)@[i as int] },
                    ));
                    Ok(())
                }
            }
        }
    }

    /// The flat key/value mapping, in declaration order; fails on the first
    /// required slot without a value.
    pub fn serialize(&self) -> (r: Result<Vec<(String, String)>, ParamError>)
        ensures
            r matches Ok(v) ==> serialized(self@) == Ok::<_, Seq<char>>(pairs_view(v@)),
            r matches Err(e) ==> exists|k: &'static str|
                e == ParamError::MissingRequiredParam(k) && serialized(self@) == Err::<
                    Seq<(Seq<char>, Seq<char>)>,
                    _,
                >(k@),
            r is Ok <==> serialized(self@) is Ok,
    {
        let mut out: Vec<(String, String)> = Vec::new();
        let n = self.items.len();
        let mut i: usize = 0;
        assert(self@.subrange(0, n as int) == self@);
        while i < n
            invariant
                n == self@.len(),
                self@.len() == self.items@.len(),
                i <= n,
                serialized(self@) == match serialized(self@.subrange(i as int, n as int)) {
                    Ok(t) => Ok(pairs_view(out@) + t),
                    Err(k) => Err(k),
                },
            decreases n - i,
        {
            let ghost rest = self@.subrange(i as int, n as int);
            assert(rest.drop_first() == self@.subrange(i + 1, n as int));
            assert(rest[0] == self.items@[i as int]@);
            match &self.items[i].value {
                Some(v) => {
                    let pair = (String::from_str(self.items[i].key), v.clone());
                    let ghost before = out@;
                    out.push(pair);
                    assert(out@.drop_last() == before);
                    assert(pairs_view(out@) =~= pairs_view(before) + seq![(pair.0@, pair.1@)]);
                    assert(rest[0].value == Some(pair.1@) && rest[0].key == pair.0@);
                    assert forall|t: Seq<(Seq<char>, Seq<char>)>|
                        pairs_view(before) + (seq![(pair.0@, pair.1@)] + t) == #[trigger] (pairs_view(out@) + t)
                        by {
                        assert(pairs_view(before) + (seq![(pair.0@, pair.1@)] + t) =~= pairs_view(out@) + t);
                    }
                },
                None => {
                    if self.items[i].is_required {
                        return Err(ParamError::MissingRequiredParam(self.items[i].key));
                    }
                },
            }
            i = i + 1;
        }
        assert(pairs_view(out@) + Seq::empty() == pairs_view(out@));
        Ok(out)
    }
}

} // verus!
