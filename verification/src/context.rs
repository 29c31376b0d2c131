use vstd::prelude::*;

verus! {

/// An identity-scoping token threaded through every recursive render call.
///
/// A context names the position in the widget tree that is being drawn, as
/// a path of discriminators. Composite renderers derive a child context with
/// [`Context::with_id`] for every nested sub-view; the derivation is a pure
/// function of the parent identity and the discriminator, so the identity of
/// a call site is stable from frame to frame, and two siblings derived with
/// different discriminators can never collide.
pub struct Context {
    ids: Vec<u64>,
}

impl Context {
    /// The identity path this context denotes.
    pub closed spec fn id_path(&self) -> Seq<u64> {
        self.ids@
    }

    /// A fresh root context with the empty identity path, made once per
    /// render pass.
    pub fn new() -> (c: Context)
        ensures
            c.id_path() == Seq::<u64>::empty(),
    {
        Context { ids: Vec::new() }
    }

    /// Derives the context for the sub-view with the local discriminator
    /// `id`: its identity is the parent identity extended by `id`, and
    /// nothing else, so the same parent and discriminator always yield the
    /// same identity.
    pub fn with_id(&self, id: u64) -> (c: Context)
        ensures
            c.id_path() == self.id_path().push(id),
    {
        let mut ids = self.ids.clone();
        proof {
            assert(ids@ =~= self.ids@);
        }
        ids.push(id);
        Context { ids }
    }

    /// The identity path as a value a caller outside ghost code can read.
    pub fn ids(&self) -> (r: &Vec<u64>)
        ensures
            r@ == self.id_path(),
    {
        &self.ids
    }
}

/// Sibling sub-views cannot collide: deriving child identities from one
/// parent identity with two different discriminators yields two different
/// identity paths.
pub proof fn lemma_child_identities_distinct(parent: Seq<u64>, da: u64, db: u64)
    requires
        da != db,
    ensures
        parent.push(da) != parent.push(db),
{
    assert(parent.push(da)[parent.len() as int] == da);
    assert(parent.push(db)[parent.len() as int] == db);
}

} // verus!
