//! Published thumbnails: their served resolutions, the level ids behind the
//! stored file names, and the pick of a random one.
use vstd::prelude::*;
use crate::text::{digits_text, parse_u64, parsed_u64, push_digits};

verus! {

/// A served resolution of a thumbnail.
#[derive(Debug, Clone, Copy, PartialEq, Eq, Structural)]
pub enum Res {
    High,
    Medium,
    Small,
}

/// Width and height of a resolution.
pub open spec fn res_dimensions(res: Res) -> (u32, u32) {
    match res {
        Res::High => (1920, 1080),
        Res::Medium => (1280, 720),
        Res::Small => (640, 360),
    }
}

/// The name of a resolution in addresses.
pub open spec fn res_name(res: Res) -> Seq<char> {
    match res {
        Res::High => "high"@,
        Res::Medium => "medium"@,
        Res::Small => "small"@,
    }
}

impl Res {
    /// Width and height of this resolution.
    pub fn dimensions(&self) -> (r: (u32, u32))
        ensures
            r == res_dimensions(*self),
    {
        match self {
            Res::High => (1920, 1080),
            Res::Medium => (1280, 720),
            Res::Small => (640, 360),
        }
    }

    /// The name of this resolution in addresses.
    pub fn name(&self) -> (r: &'static str)
        ensures
            r@ == res_name(*self),
    {
        match self {
            Res::High => "high",
            Res::Medium => "medium",
            Res::Small => "small",
        }
    }
}

/// The address that serves a level's thumbnail at a resolution.
pub fn thumbnail_location(level_id: u64, res: Res) -> (r: String)
    ensures
        r@ == "/thumbnail/"@ + digits_text(level_id as nat) + "/"@ + res_name(res),
{
    let mut s = String::from_str("/thumbnail/");
    push_digits(&mut s, level_id);
    s.append("/");
    s.append(res.name());
    s
}

/// A name with every trailing ".webp" removed.
pub open spec fn strip_webp(s: Seq<char>) -> Seq<char>
    decreases s.len(),
{
    if s.len() >= 5 && s.subrange(s.len() - 5, s.len() as int) == ".webp"@ {
        strip_webp(s.subrange(0, s.len() - 5))
    } else {
        s
    }
}

/// The level id that a stored file name stands for.
pub open spec fn level_of_file(name: Seq<char>) -> Option<u64> {
    parsed_u64(strip_webp(name))
}

fn ends_with_webp(name: &str, end: usize) -> (r: bool)
    requires
        end <= name@.len(),
    ensures
        r == (end >= 5 && name@.take(end as int).subrange(end - 5, end as int) == ".webp"@),
{
    let suffix = ".webp";
    proof {
        reveal_strlit(".webp");
    }
    if end < 5 {
        return false;
    }
    let mut i: usize = 0;
    while i < 5
        invariant
            5 <= end <= name@.len(),
            suffix@ == ".webp"@,
            suffix@.len() == 5,
            i <= 5,
            forall|k: int| 0 <= k < i ==> name@[end - 5 + k] == suffix@[k],
        decreases 5 - i,
    {
        if name.get_char(end - 5 + i) != suffix.get_char(i) {
            assert(name@.take(end as int).subrange(end - 5, end as int)[i as int] != ".webp"@[i as int]);
            return false;
        }
        i = i + 1;
    }
    assert(name@.take(end as int).subrange(end - 5, end as int) =~= ".webp"@);
    true
}

/// The length of a name once every trailing ".webp" is removed.
fn stem_len(name: &str) -> (r: usize)
    ensures
        r <= name@.len(),
        strip_webp(name@) == name@.take(r as int),
{
    let n = name.unicode_len();
    let mut end: usize = n;
    assert(name@.take(n as int) =~= name@);
    while ends_with_webp(name, end)
        invariant
            n == name@.len(),
            end <= n,
            strip_webp(name@) == strip_webp(name@.take(end as int)),
        decreases end,
    {
        proof {
            assert(name@.take(end as int).subrange(0, end - 5) =~= name@.take(end - 5));
        }
        end = end - 5;
    }
    end
}

/// The level id of a stored thumbnail's file name: the name without its
/// trailing ".webp" parts, read as an unsigned decimal number.
pub fn level_id_of_file(name: &str) -> (r: Option<u64>)
    ensures
        r == level_of_file(name@),
{
    let end = stem_len(name);
    parse_u64(name.substring_char(0, end))
}

/// The level ids of the stored file names that stand for one, in order.
pub open spec fn levels_of_files(names: Seq<String>) -> Seq<u64>
    decreases names.len(),
{
    if names.len() == 0 {
        Seq::empty()
    } else {
        let before = levels_of_files(names.drop_last());
        match level_of_file(names.last()@) {
            Some(id) => before.push(id),
            None => before,
        }
    }
}

/// The level ids behind a directory listing of published thumbnails; names
/// that stand for no id are skipped.
pub fn level_ids_of_files(names: &Vec<String>) -> (r: Vec<u64>)
    ensures
        r@ == levels_of_files(names@),
{
    let mut ids: Vec<u64> = Vec::new();
    let mut i: usize = 0;
    while i < names.len()
        invariant
            i <= names@.len(),
            ids@ == levels_of_files(names@.take(i as int)),
        decreases names@.len() - i,
    {
        assert(names@.take(i + 1).drop_last() =~= names@.take(i as int));
        if let Some(id) = level_id_of_file(names[i].as_str()) {
            ids.push(id);
        }
        i = i + 1;
    }
    assert(names@.take(names@.len() as int) =~= names@);
    ids
}

/// The id that a random draw picks: the draw modulo the number of ids.
pub fn pick_thumbnail(ids: &Vec<u64>, draw: u64) -> (r: u64)
    requires
        ids@.len() > 0,
    ensures
        r == ids@[(draw as int) % (ids@.len() as int)],
{
    let k = draw % (ids.len() as u64);
    ids[k as usize]
}

/// Relies on rand::random for a draw from the thread's generator; nothing is
/// promised of the value.
pub assume_specification<T>[ rand::random::<T> ]() -> (r: T)
    where
        rand::distributions::Standard: rand::distributions::Distribution<T>,
;

/// A random one of the ids, or none where there are none.
pub fn random_thumbnail(ids: &Vec<u64>) -> (r: Option<u64>)
    ensures
        r is None <==> ids@.len() == 0,
        r matches Some(id) ==> ids@.contains(id),
{
    if ids.len() == 0 {
        return None;
    }
    let draw: u64 = rand::random::<u64>();
    let id = pick_thumbnail(ids, draw);
    assert(ids@[(draw as int) % (ids@.len() as int)] == id);
    Some(id)
}

} // verus!
