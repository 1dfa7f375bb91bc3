//! Which file-system events the configuration and stylesheet watchers act
//! on: a create, modify or remove event naming the watched file.
use vstd::prelude::*;
use crate::text::{chars_eq, chars_of, lemma_split_nonempty, slice_chars, split_chars, split_seq};

verus! {

/// Kind of a file-system event, as the watcher reports it.
#[derive(Debug, Clone, Copy, PartialEq, Eq, Structural)]
pub enum FsEventKind {
    Access,
    Create,
    Modify,
    Remove,
    Other,
}

/// A file-system event: its kind and the paths it concerns.
#[derive(Debug, Clone)]
pub struct FsEvent {
    pub kind: FsEventKind,
    pub paths: Vec<String>,
}

/// The pieces between `/` that name something: not empty, not `.`.
pub open spec fn kept_names(ps: Seq<Seq<char>>) -> Seq<Seq<char>>
    decreases ps.len(),
{
    if ps.len() == 0 {
        Seq::<Seq<char>>::empty()
    } else if ps.last().len() > 0 && ps.last() != seq!['.'] {
        kept_names(ps.drop_last()).push(ps.last())
    } else {
        kept_names(ps.drop_last())
    }
}

/// What `Path::components` makes of a `/`-separated path: whether it
/// starts at the root, whether it starts with the `.` component, and its
/// other components (repeated separators and inner `.` are dropped).
pub open spec fn path_parts(p: Seq<char>) -> (bool, bool, Seq<Seq<char>>) {
    let rooted = p.len() > 0 && p[0] == '/';
    (rooted, !rooted && split_seq(p, '/')[0] == seq!['.'], kept_names(split_seq(p, '/')))
}

/// Two paths are equal as `Path`s: they have the same components.
pub open spec fn path_eq(a: Seq<char>, b: Seq<char>) -> bool {
    path_parts(a) == path_parts(b)
}

/// An event counts when it creates, modifies or removes the target.
pub open spec fn event_relevant(kind: FsEventKind, paths: Seq<String>, target: Seq<char>) -> bool {
    (kind == FsEventKind::Create || kind == FsEventKind::Modify || kind == FsEventKind::Remove)
        && exists|i: int| 0 <= i < paths.len() && path_eq(#[trigger] paths[i]@, target)
}

fn path_parts_of(p: &str) -> (r: (bool, bool, Vec<Vec<char>>))
    ensures
        r.0 == path_parts(p@).0,
        r.1 == path_parts(p@).1,
        r.2@.len() == path_parts(p@).2.len(),
        forall|i: int| 0 <= i < r.2@.len() ==> #[trigger] r.2@[i]@ == path_parts(p@).2[i],
{
    let v = chars_of(p);
    let rooted = v.len() > 0 && v[0] == '/';
    let pieces = split_chars(v.as_slice(), '/');
    let ghost sp = split_seq(v@, '/');
    proof {
        lemma_split_nonempty(v@, '/');
    }
    let first = &pieces[0];
    let lead = !rooted && first.len() == 1 && first[0] == '.';
    assert(lead == (!rooted && sp[0] == seq!['.'])) by {
        if first@.len() == 1 && first@[0] == '.' {
            assert(sp[0] =~= seq!['.']);
        }
    }
    let mut names: Vec<Vec<char>> = Vec::new();
    let mut i: usize = 0;
    while i < pieces.len()
        invariant
            i <= pieces@.len(),
            pieces@.len() == sp.len(),
            forall|k: int| 0 <= k < pieces@.len() ==> #[trigger] pieces@[k]@ == sp[k],
            names@.len() == kept_names(sp.subrange(0, i as int)).len(),
            forall|k: int| 0 <= k < names@.len() ==> #[trigger] names@[k]@ == kept_names(
                sp.subrange(0, i as int),
            )[k],
        decreases pieces@.len() - i,
    {
        proof {
            assert(sp.subrange(0, i + 1).drop_last() =~= sp.subrange(0, i as int));
        }
        let piece = &pieces[i];
        let dot = piece.len() == 1 && piece[0] == '.';
        assert(dot == (piece@ == seq!['.'])) by {
            if dot {
                assert(piece@ =~= seq!['.']);
            }
        }
        if piece.len() > 0 && !dot {
            let kept = slice_chars(piece.as_slice(), 0, piece.len());
            assert(kept@ =~= piece@);
            names.push(kept);
        }
        i = i + 1;
    }
    assert(sp.subrange(0, sp.len() as int) =~= sp);
    (rooted, lead, names)
}

/// Whether two paths are the same `Path` (same components).
pub fn paths_equal(a: &str, b: &str) -> (r: bool)
    ensures
        r == path_eq(a@, b@),
{
    let (ra, la, na) = path_parts_of(a);
    let (rb, lb, nb) = path_parts_of(b);
    if ra != rb || la != lb || na.len() != nb.len() {
        return false;
    }
    let mut i: usize = 0;
    while i < na.len()
        invariant
            i <= na@.len(),
            na@.len() == nb@.len(),
            na@.len() == path_parts(a@).2.len(),
            nb@.len() == path_parts(b@).2.len(),
            forall|k: int| 0 <= k < na@.len() ==> #[trigger] na@[k]@ == path_parts(a@).2[k],
            forall|k: int| 0 <= k < nb@.len() ==> #[trigger] nb@[k]@ == path_parts(b@).2[k],
            forall|k: int| 0 <= k < i ==> path_parts(a@).2[k] == path_parts(b@).2[k],
        decreases na@.len() - i,
    {
        if !chars_eq(na[i].as_slice(), nb[i].as_slice()) {
            return false;
        }
        i = i + 1;
    }
    assert(path_parts(a@).2 =~= path_parts(b@).2);
    true
}

/// Whether a watcher report concerns the watched file: a create, modify
/// or remove event naming `target`. `None` stands for a watcher error,
/// which never counts.
pub fn is_relevant(ev: Option<&FsEvent>, target: &str) -> (b: bool)
    ensures
        b == match ev {
            None => false,
            Some(e) => event_relevant(e.kind, e.paths@, target@),
        },
{
    match ev {
        None => false,
        Some(e) => {
            if !(e.kind == FsEventKind::Create || e.kind == FsEventKind::Modify || e.kind
                == FsEventKind::Remove) {
                return false;
            }
            let mut i: usize = 0;
            while i < e.paths.len()
                invariant
                    ev == Some(e),
                    i <= e.paths@.len(),
                    e.kind == FsEventKind::Create || e.kind == FsEventKind::Modify || e.kind
                        == FsEventKind::Remove,
                    forall|k: int| 0 <= k < i ==> !path_eq(#[trigger] e.paths@[k]@, target@),
                decreases e.paths@.len() - i,
            {
                if paths_equal(e.paths[i].as_str(), target) {
                    assert(path_eq(e.paths@[i as int]@, target@));
                    return true;
                }
                i = i + 1;
            }
            false
        },
    }
}

} // verus!
