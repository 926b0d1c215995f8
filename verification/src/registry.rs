//! The relay binding registry: which relay channel(s) a world-chat actor is
//! bound to, and for which capability.  Bindings are fixed at startup from
//! configuration; the registry is read-only afterwards.

use vstd::prelude::*;

verus! {

/// What a binding is for.  The two capabilities are independent: a channel
/// may relay all chat, accept commands only, or (under two bindings) both.
#[derive(Clone, Copy, Debug, PartialEq, Eq, Structural)]
pub enum BindingKind {
    /// All world chat of the actor is mirrored into the channel and back.
    ChatRelay,
    /// Messages in the channel may be bridged into world-chat commands.
    CommandBridge,
}

/// One association between a world-chat actor and a relay channel.
#[derive(Clone, Copy, Debug, PartialEq, Eq, Structural)]
pub struct RelayBinding {
    pub actor_id: u64,
    pub kind: BindingKind,
    pub channel_id: u64,
}

/// Channel identifiers of the bindings of `actor_id` with kind `kind`, in
/// registry order.
pub open spec fn channels_for(s: Seq<RelayBinding>, actor_id: u64, kind: BindingKind) -> Seq<u64>
    decreases s.len(),
{
    if s.len() == 0 {
        Seq::empty()
    } else if s[0].actor_id == actor_id && s[0].kind == kind {
        seq![s[0].channel_id] + channels_for(s.drop_first(), actor_id, kind)
    } else {
        channels_for(s.drop_first(), actor_id, kind)
    }
}

/// Actor identifiers bound to channel `channel_id` with kind `kind`, in
/// registry order.
pub open spec fn actors_for(s: Seq<RelayBinding>, kind: BindingKind, channel_id: u64) -> Seq<u64>
    decreases s.len(),
{
    if s.len() == 0 {
        Seq::empty()
    } else if s[0].kind == kind && s[0].channel_id == channel_id {
        seq![s[0].actor_id] + actors_for(s.drop_first(), kind, channel_id)
    } else {
        actors_for(s.drop_first(), kind, channel_id)
    }
}

/// The bindings of `actor_id`, of every kind, in registry order.
pub open spec fn bindings_of(s: Seq<RelayBinding>, actor_id: u64) -> Seq<RelayBinding>
    decreases s.len(),
{
    if s.len() == 0 {
        Seq::empty()
    } else if s[0].actor_id == actor_id {
        seq![s[0]] + bindings_of(s.drop_first(), actor_id)
    } else {
        bindings_of(s.drop_first(), actor_id)
    }
}

/// No two bindings of the same kind name the same channel.
pub open spec fn channels_unique(s: Seq<RelayBinding>) -> bool {
    forall|i: int, j: int|
        0 <= i < j < s.len() && s[i].kind == s[j].kind ==> s[i].channel_id != s[j].channel_id
}

proof fn lemma_channels_for_step(s: Seq<RelayBinding>, i: int, actor_id: u64, kind: BindingKind)
    requires
        0 <= i < s.len(),
    ensures
        channels_for(s.skip(i), actor_id, kind) == if s[i].actor_id == actor_id && s[i].kind
            == kind {
            seq![s[i].channel_id] + channels_for(s.skip(i + 1), actor_id, kind)
        } else {
            channels_for(s.skip(i + 1), actor_id, kind)
        },
{
    assert(s.skip(i).drop_first() =~= s.skip(i + 1));
    assert(s.skip(i)[0] == s[i]);
}

proof fn lemma_actors_for_step(s: Seq<RelayBinding>, i: int, kind: BindingKind, channel_id: u64)
    requires
        0 <= i < s.len(),
    ensures
        actors_for(s.skip(i), kind, channel_id) == if s[i].kind == kind && s[i].channel_id
            == channel_id {
            seq![s[i].actor_id] + actors_for(s.skip(i + 1), kind, channel_id)
        } else {
            actors_for(s.skip(i + 1), kind, channel_id)
        },
{
    assert(s.skip(i).drop_first() =~= s.skip(i + 1));
    assert(s.skip(i)[0] == s[i]);
}

proof fn lemma_bindings_of_step(s: Seq<RelayBinding>, i: int, actor_id: u64)
    requires
        0 <= i < s.len(),
    ensures
        bindings_of(s.skip(i), actor_id) == if s[i].actor_id == actor_id {
            seq![s[i]] + bindings_of(s.skip(i + 1), actor_id)
        } else {
            bindings_of(s.skip(i + 1), actor_id)
        },
{
    assert(s.skip(i).drop_first() =~= s.skip(i + 1));
    assert(s.skip(i)[0] == s[i]);
}

proof fn lemma_actors_for_none(s: Seq<RelayBinding>, kind: BindingKind, channel_id: u64)
    requires
        forall|i: int|
            0 <= i < s.len() ==> !(s[i].kind == kind && s[i].channel_id == channel_id),
    ensures
        actors_for(s, kind, channel_id).len() == 0,
    decreases s.len(),
{
    if s.len() > 0 {
        assert(forall|i: int|
            0 <= i < s.drop_first().len() ==> s.drop_first()[i] == s[i + 1]);
        lemma_actors_for_none(s.drop_first(), kind, channel_id);
    }
}

/// Uniqueness of reverse lookup: while each channel identifier is unique
/// within its kind, a channel resolves to at most one actor per kind, so the
/// inbound relay path never fans one message out to two owners of one
/// binding.
pub proof fn lemma_reverse_lookup_unique(s: Seq<RelayBinding>, kind: BindingKind, channel_id: u64)
    requires
        channels_unique(s),
    ensures
        actors_for(s, kind, channel_id).len() <= 1,
    decreases s.len(),
{
    if s.len() > 0 {
        let rest = s.drop_first();
        assert(forall|i: int| 0 <= i < rest.len() ==> rest[i] == s[i + 1]);
        if s[0].kind == kind && s[0].channel_id == channel_id {
            assert forall|i: int|
                0 <= i < rest.len() implies !(rest[i].kind == kind && rest[i].channel_id
                == channel_id) by {
                assert(rest[i] == s[i + 1]);
                assert(channels_unique(s) && 0 < i + 1 < s.len());
            }
            lemma_actors_for_none(rest, kind, channel_id);
        } else {
            assert(channels_unique(rest));
            lemma_reverse_lookup_unique(rest, kind, channel_id);
        }
    }
}

/// The registry of relay bindings.  Well-formed registries keep each channel
/// identifier unique within its binding kind.
pub struct Registry {
    bindings: Vec<RelayBinding>,
}

impl View for Registry {
    type V = Seq<RelayBinding>;

    closed spec fn view(&self) -> Seq<RelayBinding> {
        self.bindings@
    }
}

impl Registry {
    /// Uniqueness of channels within each kind, the registry's invariant.
    pub open spec fn wf(self) -> bool {
        channels_unique(self@)
    }

    /// Builds the registry from the configured bindings; refuses exactly the
    /// configurations in which one channel is bound twice for one kind.
    pub fn new(bindings: Vec<RelayBinding>) -> (r: Option<Registry>)
        ensures
            match r {
                Some(reg) => reg@ == bindings@ && reg.wf() && channels_unique(bindings@),
                None => !channels_unique(bindings@),
            },
    {
        let n = bindings.len();
        let mut i: usize = 0;
        while i < n
            invariant
                i <= n,
                n == bindings@.len(),
                forall|x: int, y: int|
                    0 <= x < y < n && x < i && bindings@[x].kind == bindings@[y].kind
                        ==> bindings@[x].channel_id != bindings@[y].channel_id,
            decreases n - i,
        {
            let mut j: usize = i + 1;
            while j < n
                invariant
                    i < j <= n,
                    n == bindings@.len(),
                    forall|y: int|
                        i < y < j && bindings@[i as int].kind == bindings@[y].kind
                            ==> bindings@[i as int].channel_id != bindings@[y].channel_id,
                decreases n - j,
            {
                if bindings[i].kind == bindings[j].kind && bindings[i].channel_id
                    == bindings[j].channel_id {
                    return None;
                }
                j += 1;
            }
            i += 1;
        }
        Some(Registry { bindings })
    }

    /// How many bindings the registry holds.
    pub fn len(&self) -> (n: usize)
        ensures
            n == self@.len(),
    {
        self.bindings.len()
    }

    /// The bindings of `actor_id`, of every kind.
    pub fn bindings_for_actor(&self, actor_id: u64) -> (r: Vec<RelayBinding>)
        ensures
            r@ == bindings_of(self@, actor_id),
    {
        let s = Ghost(self@);
        let n = self.bindings.len();
        let mut r: Vec<RelayBinding> = Vec::new();
        let mut i: usize = 0;
        proof {
            assert(s@.skip(0) =~= s@);
        }
        while i < n
            invariant
                i <= n,
                n == s@.len(),
                s@ == self@,
                r@ + bindings_of(s@.skip(i as int), actor_id) == bindings_of(s@, actor_id),
            decreases n - i,
        {
            proof {
                lemma_bindings_of_step(s@, i as int, actor_id);
            }
            if self.bindings[i].actor_id == actor_id {
                r.push(self.bindings[i]);
            }
            i += 1;
        }
        proof {
            assert(s@.skip(n as int) =~= Seq::<RelayBinding>::empty());
            assert(r@ + bindings_of(s@.skip(n as int), actor_id) =~= r@);
        }
        r
    }

    /// The channels bound to `actor_id` with kind `kind`.
    pub fn channels_for_actor(&self, actor_id: u64, kind: BindingKind) -> (r: Vec<u64>)
        ensures
            r@ == channels_for(self@, actor_id, kind),
    {
        let s = Ghost(self@);
        let n = self.bindings.len();
        let mut r: Vec<u64> = Vec::new();
        let mut i: usize = 0;
        proof {
            assert(s@.skip(0) =~= s@);
        }
        while i < n
            invariant
                i <= n,
                n == s@.len(),
                s@ == self@,
                r@ + channels_for(s@.skip(i as int), actor_id, kind) == channels_for(
                    s@,
                    actor_id,
                    kind,
                ),
            decreases n - i,
        {
            proof {
                lemma_channels_for_step(s@, i as int, actor_id, kind);
            }
            if self.bindings[i].actor_id == actor_id && self.bindings[i].kind == kind {
                r.push(self.bindings[i].channel_id);
            }
            i += 1;
        }
        proof {
            assert(s@.skip(n as int) =~= Seq::<RelayBinding>::empty());
            assert(r@ + channels_for(s@.skip(n as int), actor_id, kind) =~= r@);
        }
        r
    }

    /// The actors bound to channel `channel_id` with kind `kind`.
    pub fn actors_for_channel(&self, kind: BindingKind, channel_id: u64) -> (r: Vec<u64>)
        ensures
            r@ == actors_for(self@, kind, channel_id),
    {
        let s = Ghost(self@);
        let n = self.bindings.len();
        let mut r: Vec<u64> = Vec::new();
        let mut i: usize = 0;
        proof {
            assert(s@.skip(0) =~= s@);
        }
        while i < n
            invariant
                i <= n,
                n == s@.len(),
                s@ == self@,
                r@ + actors_for(s@.skip(i as int), kind, channel_id) == actors_for(
                    s@,
                    kind,
                    channel_id,
                ),
            decreases n - i,
        {
            proof {
                lemma_actors_for_step(s@, i as int, kind, channel_id);
            }
            if self.bindings[i].kind == kind && self.bindings[i].channel_id == channel_id {
                r.push(self.bindings[i].actor_id);
            }
            i += 1;
        }
        proof {
            assert(s@.skip(n as int) =~= Seq::<RelayBinding>::empty());
            assert(r@ + actors_for(s@.skip(n as int), kind, channel_id) =~= r@);
        }
        r
    }

    /// Reverse lookup for inbound relay events: the actor owning the binding
    /// of kind `kind` for `channel_id`.  In a well-formed registry the
    /// binding, when present, is unique.
    pub fn actor_for_channel(&self, kind: BindingKind, channel_id: u64) -> (r: Option<u64>)
        ensures
            match r {
                Some(a) => actors_for(self@, kind, channel_id).len() > 0 && a == actors_for(
                    self@,
                    kind,
                    channel_id,
                )[0],
                None => actors_for(self@, kind, channel_id).len() == 0,
            },
            self.wf() && r is Some ==> actors_for(self@, kind, channel_id) =~= seq![r->0],
    {
        proof {
            if self.wf() {
                lemma_reverse_lookup_unique(self@, kind, channel_id);
            }
        }
        let actors = self.actors_for_channel(kind, channel_id);
        if actors.len() > 0 {
            Some(actors[0])
        } else {
            None
        }
    }
}

} // verus!
