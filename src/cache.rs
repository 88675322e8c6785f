use vstd::prelude::*;
use vstd::string::*;

use crate::algorithm::OtpAlgorithm;
use crate::scan::{slots_view, Slot, SlotView};
use crate::text::text_eq;

verus! {

/// The slots of one token, by algorithm, each list in the order in which the
/// token reported it. An algorithm without an entry has no slots known.
pub struct SlotCache {
    hotp: Option<Vec<Slot>>,
    totp: Option<Vec<Slot>>,
}

/// The abstract contents of an entry of the cache.
pub open spec fn entry_view(e: Option<Vec<Slot>>) -> Option<Seq<SlotView>> {
    match e {
        Some(v) => Some(slots_view(v@)),
        None => None,
    }
}

/// A map with an entry for each algorithm that `h` and `t` give one.
pub open spec fn map_of(h: Option<Seq<SlotView>>, t: Option<Seq<SlotView>>) -> Map<
    OtpAlgorithm,
    Seq<SlotView>,
> {
    Map::new(
        |a: OtpAlgorithm|
            match a {
                OtpAlgorithm::Hotp => h is Some,
                OtpAlgorithm::Totp => t is Some,
            },
        |a: OtpAlgorithm|
            match a {
                OtpAlgorithm::Hotp => h.unwrap(),
                OtpAlgorithm::Totp => t.unwrap(),
            },
    )
}

/// The slots that a cache holds for an algorithm: none where it has no entry.
pub open spec fn slots_for(m: Map<OtpAlgorithm, Seq<SlotView>>, a: OtpAlgorithm) -> Seq<SlotView> {
    if m.contains_key(a) {
        m[a]
    } else {
        Seq::empty()
    }
}

/// The index of the first slot named `name`, if any.
pub open spec fn first_named(s: Seq<SlotView>, name: Seq<char>) -> Option<u8>
    decreases s.len(),
{
    if s.len() == 0 {
        None
    } else if s[0].1 == name {
        Some(s[0].0)
    } else {
        first_named(s.drop_first(), name)
    }
}

impl View for SlotCache {
    type V = Map<OtpAlgorithm, Seq<SlotView>>;

    closed spec fn view(&self) -> Map<OtpAlgorithm, Seq<SlotView>> {
        map_of(entry_view(self.hotp), entry_view(self.totp))
    }
}

/// No slot of the requested algorithm carries the requested name.
#[derive(Clone, Copy, Debug, PartialEq, Eq, Structural)]
pub struct NoSuchSlot;

/// The index of the first slot in `slots` named `name`, if any.
pub fn find_slot(slots: &Vec<Slot>, name: &str) -> (r: Option<u8>)
    ensures
        r == first_named(slots_view(slots@), name@),
{
    let ghost s = slots_view(slots@);
    let mut i: usize = 0;
    assert(s.subrange(0, s.len() as int) =~= s);
    while i < slots.len()
        invariant
            s == slots_view(slots@),
            i <= slots.len(),
            first_named(s, name@) == first_named(s.subrange(i as int, s.len() as int), name@),
        decreases slots.len() - i,
    {
        let ghost rest = s.subrange(i as int, s.len() as int);
        assert(rest.drop_first() =~= s.subrange(i + 1, s.len() as int));
        if text_eq(slots[i].name.as_str(), name) {
            return Some(slots[i].index);
        }
        i = i + 1;
    }
    None
}

impl SlotCache {
    /// A cache with no entries.
    pub fn new() -> (r: SlotCache)
        ensures
            r@ == Map::<OtpAlgorithm, Seq<SlotView>>::empty(),
    {
        let r = SlotCache { hotp: None, totp: None };
        assert(r@ =~= Map::<OtpAlgorithm, Seq<SlotView>>::empty());
        r
    }

    /// A cache that holds the freshly discovered slots of one algorithm and
    /// nothing of any other.
    pub fn from_scan(algorithm: OtpAlgorithm, slots: Vec<Slot>) -> (r: SlotCache)
        ensures
            r@ == Map::<OtpAlgorithm, Seq<SlotView>>::empty().insert(algorithm, slots_view(slots@)),
    {
        let mut r = SlotCache::new();
        r.insert(algorithm, slots);
        r
    }

    /// Sets the entry of an algorithm, replacing any earlier one.
    pub fn insert(&mut self, algorithm: OtpAlgorithm, slots: Vec<Slot>)
        ensures
            final(self)@ == old(self)@.insert(algorithm, slots_view(slots@)),
    {
        let ghost v = slots_view(slots@);
        match algorithm {
            OtpAlgorithm::Hotp => self.hotp = Some(slots),
            OtpAlgorithm::Totp => self.totp = Some(slots),
        }
        assert(self@ =~= old(self)@.insert(algorithm, v));
    }

    /// The entry of an algorithm, if the cache has one.
    pub fn get(&self, algorithm: OtpAlgorithm) -> (r: Option<&Vec<Slot>>)
        ensures
            match r {
                Some(v) => self@.contains_key(algorithm) && slots_view(v@) == self@[algorithm],
                None => !self@.contains_key(algorithm),
            },
    {
        match algorithm {
            OtpAlgorithm::Hotp => self.hotp.as_ref(),
            OtpAlgorithm::Totp => self.totp.as_ref(),
        }
    }

    /// Takes the slots of an algorithm out of the cache; an algorithm without
    /// an entry has none.
    pub fn remove(&mut self, algorithm: OtpAlgorithm) -> (r: Vec<Slot>)
        ensures
            slots_view(r@) == slots_for(old(self)@, algorithm),
            final(self)@ == old(self)@.remove(algorithm),
    {
        let taken = match algorithm {
            OtpAlgorithm::Hotp => self.hotp.take(),
            OtpAlgorithm::Totp => self.totp.take(),
        };
        assert(self@ =~= old(self)@.remove(algorithm));
        match taken {
            Some(v) => v,
            None => {
                let v: Vec<Slot> = Vec::new();
                assert(slots_view(v@) =~= Seq::<SlotView>::empty());
                v
            },
        }
    }

    /// The index of the first slot of an algorithm that carries `name`.
    pub fn lookup(&self, algorithm: OtpAlgorithm, name: &str) -> (r: Result<u8, NoSuchSlot>)
        ensures
            match first_named(slots_for(self@, algorithm), name@) {
                Some(i) => r == Ok::<u8, NoSuchSlot>(i),
                None => r == Err::<u8, NoSuchSlot>(NoSuchSlot),
            },
    {
        match self.get(algorithm) {
            Some(v) => match find_slot(v, name) {
                Some(i) => Ok(i),
                None => Err(NoSuchSlot),
            },
            None => Err(NoSuchSlot),
        }
    }
}

/// A cache holds exactly what was put into it, entry by entry: filling an
/// empty cache with the entries that another one has gives back the same
/// contents, whatever entries it has.
pub proof fn lemma_cache_rebuilt_from_entries(m: Map<OtpAlgorithm, Seq<SlotView>>)
    ensures
        ({
            let h = if m.contains_key(OtpAlgorithm::Hotp) {
                Map::empty().insert(OtpAlgorithm::Hotp, m[OtpAlgorithm::Hotp])
            } else {
                Map::<OtpAlgorithm, Seq<SlotView>>::empty()
            };
            let ht = if m.contains_key(OtpAlgorithm::Totp) {
                h.insert(OtpAlgorithm::Totp, m[OtpAlgorithm::Totp])
            } else {
                h
            };
            ht == m
        }),
{
    let h = if m.contains_key(OtpAlgorithm::Hotp) {
        Map::empty().insert(OtpAlgorithm::Hotp, m[OtpAlgorithm::Hotp])
    } else {
        Map::<OtpAlgorithm, Seq<SlotView>>::empty()
    };
    let ht = if m.contains_key(OtpAlgorithm::Totp) {
        h.insert(OtpAlgorithm::Totp, m[OtpAlgorithm::Totp])
    } else {
        h
    };
    assert(ht =~= m) by {
        assert forall|a: OtpAlgorithm| #[trigger] ht.contains_key(a) == m.contains_key(a) by {
            match a {
                OtpAlgorithm::Hotp => {},
                OtpAlgorithm::Totp => {},
            }
        }
    }
}

/// How a cache is obtained for an invocation.
#[derive(Clone, Copy, Debug, PartialEq, Eq, Structural)]
pub enum CacheAction {
    /// Read the cache file as it is.
    Load,
    /// Scan the token, then write the new cache to the file.
    Rebuild,
}

/// Decides whether the cache file can be trusted: it is rebuilt when a
/// refresh is asked for or when there is no file yet, and read otherwise.
pub fn plan_cache(force_refresh: bool, file_exists: bool) -> (r: CacheAction)
    ensures
        r == (if force_refresh || !file_exists {
            CacheAction::Rebuild
        } else {
            CacheAction::Load
        }),
        force_refresh ==> r == CacheAction::Rebuild,
        !force_refresh && file_exists ==> r == CacheAction::Load,
{
    if force_refresh || !file_exists {
        CacheAction::Rebuild
    } else {
        CacheAction::Load
    }
}

/// The lower case form of a text, as `str::to_lowercase` gives it.
pub uninterp spec fn lower_of(s: Seq<char>) -> Seq<char>;

/// Relies on `str::to_lowercase`: the result depends on the characters alone.
#[verifier::external_body]
fn lowercase(s: &str) -> (r: String)
    ensures
        r@ == lower_of(s@),
{
    s.to_lowercase()
}

/// The name of a cache file: `<model>-<serial>.toml`.
pub open spec fn file_name_of(model: Seq<char>, serial: Seq<char>) -> Seq<char> {
    model + seq!['-'] + serial + seq!['.', 't', 'o', 'm', 'l']
}

/// The name of the cache file of a token, from the model's name already in
/// lower case and the serial number.
pub fn compose_file_name(model_lower: &str, serial: &str) -> (r: String)
    ensures
        r@ == file_name_of(model_lower@, serial@),
{
    proof {
        reveal_strlit("-");
        reveal_strlit(".toml");
    }
    let mut r = model_lower.to_owned();
    r.append("-");
    r.append(serial);
    r.append(".toml");
    r
}

/// The name of the cache file of a token, from the model's display name and
/// the serial number; the model's name is put in lower case.
pub fn cache_file_name(model_name: &str, serial: &str) -> (r: String)
    ensures
        r@ == file_name_of(lower_of(model_name@), serial@),
{
    let lower = lowercase(model_name);
    compose_file_name(lower.as_str(), serial)
}

} // verus!
