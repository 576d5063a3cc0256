//! Where thumbnails live: one published file per level, and one waiting file
//! per (submitter, level) pair in a separate area.
use vstd::prelude::*;
use crate::text::{decimal_text, lemma_decimal_text_chars, lemma_decimal_text_injective, push_decimal};

verus! {

/// A location in the file store.
#[derive(Debug, Clone, Copy, PartialEq, Eq, Structural)]
pub enum StoragePath {
    /// The published thumbnail of a level.
    Canonical { level_id: i64 },
    /// An upload of `user_id` for `level_id` that waits for a decision.
    Pending { user_id: i64, level_id: i64 },
}

/// The file name of a location.
pub open spec fn path_text(p: StoragePath) -> Seq<char> {
    match p {
        StoragePath::Canonical { level_id } => "thumbnails/"@ + decimal_text(level_id as int) + ".webp"@,
        StoragePath::Pending { user_id, level_id } => "uploads/"@ + decimal_text(user_id as int) + "_"@
            + decimal_text(level_id as int) + ".webp"@,
    }
}

impl StoragePath {
    /// The file name of this location.
    pub fn render(&self) -> (r: String)
        ensures
            r@ == path_text(*self),
    {
        match *self {
            StoragePath::Canonical { level_id } => {
                let mut s = String::from_str("thumbnails/");
                push_decimal(&mut s, level_id);
                s.append(".webp");
                s
            },
            StoragePath::Pending { user_id, level_id } => {
                let mut s = String::from_str("uploads/");
                push_decimal(&mut s, user_id);
                s.append("_");
                push_decimal(&mut s, level_id);
                s.append(".webp");
                s
            },
        }
    }
}

/// The renames that carry a user's waiting uploads over to another user id
/// when two accounts are merged: one for each level, in order.
pub fn migration_moves(old_user: i64, new_user: i64, levels: &Vec<i64>) -> (r: Vec<(StoragePath, StoragePath)>)
    ensures
        r@.len() == levels@.len(),
        forall|i: int|
            0 <= i < levels@.len() ==> #[trigger] r@[i] == (
                StoragePath::Pending { user_id: old_user, level_id: levels@[i] },
                StoragePath::Pending { user_id: new_user, level_id: levels@[i] },
            ),
{
    let mut moves: Vec<(StoragePath, StoragePath)> = Vec::new();
    let mut i: usize = 0;
    while i < levels.len()
        invariant
            i <= levels@.len(),
            moves@.len() == i,
            forall|k: int|
                0 <= k < i ==> #[trigger] moves@[k] == (
                    StoragePath::Pending { user_id: old_user, level_id: levels@[k] },
                    StoragePath::Pending { user_id: new_user, level_id: levels@[k] },
                ),
        decreases levels@.len() - i,
    {
        let level_id = levels[i];
        moves.push(
            (
                StoragePath::Pending { user_id: old_user, level_id },
                StoragePath::Pending { user_id: new_user, level_id },
            ),
        );
        i = i + 1;
    }
    moves
}

/// The `Content-Disposition` value under which a waiting upload's image is
/// served.
pub fn pending_image_disposition(user_id: i64, submission_id: i64) -> (r: String)
    ensures
        r@ == "inline; filename=\"pending_"@ + decimal_text(user_id as int) + "_"@ + decimal_text(
            submission_id as int,
        ) + ".webp\""@,
{
    let mut s = String::from_str("inline; filename=\"pending_");
    push_decimal(&mut s, user_id);
    s.append("_");
    push_decimal(&mut s, submission_id);
    s.append(".webp\"");
    s
}

/// A waiting upload is never stored under the name of a published thumbnail,
/// whatever the ids.
pub proof fn lemma_pending_apart_from_canonical(user_id: i64, level_id: i64, other_level: i64)
    ensures
        path_text(StoragePath::Pending { user_id, level_id }) != path_text(
            StoragePath::Canonical { level_id: other_level },
        ),
{
    reveal_strlit("thumbnails/");
    reveal_strlit("uploads/");
    let a = path_text(StoragePath::Pending { user_id, level_id });
    let b = path_text(StoragePath::Canonical { level_id: other_level });
    assert(a[0] == 'u');
    assert(b[0] == 't');
}

proof fn lemma_split_at_underscore(x1: Seq<char>, y1: Seq<char>, x2: Seq<char>, y2: Seq<char>)
    requires
        x1 + "_"@ + y1 == x2 + "_"@ + y2,
        forall|i: int| 0 <= i < x1.len() ==> #[trigger] x1[i] != '_',
        forall|i: int| 0 <= i < x2.len() ==> #[trigger] x2[i] != '_',
    ensures
        x1 == x2,
        y1 == y2,
{
    reveal_strlit("_");
    let s = x1 + "_"@ + y1;
    if x1.len() < x2.len() {
        assert(s[x1.len() as int] == '_');
        assert((x2 + "_"@ + y2)[x1.len() as int] == x2[x1.len() as int]);
    } else if x2.len() < x1.len() {
        assert((x2 + "_"@ + y2)[x2.len() as int] == '_');
        assert(s[x2.len() as int] == x1[x2.len() as int]);
    }
    assert(x1 =~= s.take(x1.len() as int));
    assert(x2 =~= (x2 + "_"@ + y2).take(x2.len() as int));
    assert(y1 =~= s.skip(x1.len() as int + 1));
    assert(y2 =~= (x2 + "_"@ + y2).skip(x2.len() as int + 1));
}

/// Waiting uploads of different (submitter, level) pairs never share a file:
/// the name of a waiting upload determines both ids.
pub proof fn lemma_pending_paths_distinct(u1: i64, l1: i64, u2: i64, l2: i64)
    requires
        path_text(StoragePath::Pending { user_id: u1, level_id: l1 }) == path_text(
            StoragePath::Pending { user_id: u2, level_id: l2 },
        ),
    ensures
        u1 == u2,
        l1 == l2,
{
    reveal_strlit("uploads/");
    reveal_strlit(".webp");
    let a1 = decimal_text(u1 as int);
    let b1 = decimal_text(l1 as int);
    let a2 = decimal_text(u2 as int);
    let b2 = decimal_text(l2 as int);
    let name_a = "uploads/"@ + a1 + "_"@ + b1 + ".webp"@;
    let name_b = "uploads/"@ + a2 + "_"@ + b2 + ".webp"@;
    let m1 = a1 + "_"@ + b1;
    let m2 = a2 + "_"@ + b2;
    assert(name_a =~= "uploads/"@ + m1 + ".webp"@);
    assert(name_b =~= "uploads/"@ + m2 + ".webp"@);
    assert(m1 =~= name_a.subrange(8, name_a.len() - 5));
    assert(m2 =~= name_b.subrange(8, name_b.len() - 5));
    lemma_decimal_text_chars(u1 as int);
    lemma_decimal_text_chars(u2 as int);
    assert(forall|i: int| 0 <= i < a1.len() ==> #[trigger] a1[i] != '_');
    assert(forall|i: int| 0 <= i < a2.len() ==> #[trigger] a2[i] != '_');
    lemma_split_at_underscore(a1, b1, a2, b2);
    lemma_decimal_text_injective(u1 as int, u2 as int);
    lemma_decimal_text_injective(l1 as int, l2 as int);
}

/// A level's published thumbnail has a file of its own: the name determines
/// the level.
pub proof fn lemma_canonical_paths_distinct(l1: i64, l2: i64)
    requires
        path_text(StoragePath::Canonical { level_id: l1 }) == path_text(
            StoragePath::Canonical { level_id: l2 },
        ),
    ensures
        l1 == l2,
{
    reveal_strlit("thumbnails/");
    reveal_strlit(".webp");
    let name_a = path_text(StoragePath::Canonical { level_id: l1 });
    let name_b = path_text(StoragePath::Canonical { level_id: l2 });
    assert(decimal_text(l1 as int) =~= name_a.subrange(11, name_a.len() - 5));
    assert(decimal_text(l2 as int) =~= name_b.subrange(11, name_b.len() - 5));
    lemma_decimal_text_injective(l1 as int, l2 as int);
}

} // verus!
