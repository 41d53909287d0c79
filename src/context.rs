use vstd::prelude::*;
use crate::api::{ChatMessage, MessageRole, Turn, turns};

verus! {

/// How many named fragments the loader looks for.
pub const FRAGMENT_COUNT: usize = 5;

/// The file name of fragment `i`, in loading order: persona, identity,
/// bootstrap, operating instructions, user profile.
pub open spec fn fragment_name(i: int) -> Seq<char> {
    if i == 0 {
        "SOUL.md"@
    } else if i == 1 {
        "IDENTITY.md"@
    } else if i == 2 {
        "BOOTSTRAP.md"@
    } else if i == 3 {
        "AGENTS.md"@
    } else {
        "USER.md"@
    }
}

/// The fragment file names, in the order in which their turns are placed.
pub fn fragment_names() -> (r: Vec<String>)
    ensures
        r@.len() == FRAGMENT_COUNT,
        forall|i: int| 0 <= i < FRAGMENT_COUNT ==> #[trigger] r@[i]@ == fragment_name(i),
{
    let r = vec![
        "SOUL.md".to_string(),
        "IDENTITY.md".to_string(),
        "BOOTSTRAP.md".to_string(),
        "AGENTS.md".to_string(),
        "USER.md".to_string(),
    ];
    proof {
        reveal_strlit("SOUL.md");
        reveal_strlit("IDENTITY.md");
        reveal_strlit("BOOTSTRAP.md");
        reveal_strlit("AGENTS.md");
        reveal_strlit("USER.md");
    }
    r
}

/// What was read for each fragment: its text, or nothing when it is absent
/// or unreadable.
pub open spec fn fragments_view(f: Seq<Option<String>>) -> Seq<Option<Seq<char>>> {
    f.map_values(|o: Option<String>|
        match o {
            Some(s) => Some(s@),
            None => None,
        })
}

/// The context bundle: one System turn per present fragment, in fragment order.
pub open spec fn bundle_of(f: Seq<Option<Seq<char>>>) -> Seq<Turn>
    decreases f.len(),
{
    if f.len() == 0 {
        Seq::empty()
    } else {
        let rest = bundle_of(f.drop_last());
        match f.last() {
            Some(c) => rest.push((MessageRole::System, c)),
            None => rest,
        }
    }
}

/// Builds the context bundle from what was read for each fragment, skipping
/// the absent ones.
pub fn build_context(fragments: &Vec<Option<String>>) -> (r: Vec<ChatMessage>)
    ensures
        turns(r@) == bundle_of(fragments_view(fragments@)),
{
    let mut out: Vec<ChatMessage> = Vec::new();
    let mut i: usize = 0;
    while i < fragments.len()
        invariant
            i <= fragments@.len(),
            turns(out@) == bundle_of(fragments_view(fragments@.subrange(0, i as int))),
        decreases fragments@.len() - i,
    {
        let ghost before = out@;
        proof {
            let next = fragments_view(fragments@.subrange(0, i as int + 1));
            assert(next.drop_last() =~= fragments_view(fragments@.subrange(0, i as int)));
        }
        match &fragments[i] {
            Some(c) => {
                out.push(ChatMessage::new(MessageRole::System, c.clone()));
                assert(turns(out@) =~= turns(before).push((MessageRole::System, c@)));
            },
            None => {},
        }
        i = i + 1;
    }
    assert(fragments@.subrange(0, fragments@.len() as int) =~= fragments@);
    out
}

/// Bundles put side by side: the bundle of fragments read one after the
/// other is the bundle of the first ones followed by that of the rest, so
/// turns keep the order of their fragments.
pub proof fn lemma_bundle_concat(a: Seq<Option<Seq<char>>>, b: Seq<Option<Seq<char>>>)
    ensures
        bundle_of(a + b) == bundle_of(a) + bundle_of(b),
    decreases b.len(),
{
    if b.len() == 0 {
        assert(a + b =~= a);
        assert(bundle_of(a) + bundle_of(b) =~= bundle_of(a));
    } else {
        assert((a + b).drop_last() =~= a + b.drop_last());
        lemma_bundle_concat(a, b.drop_last());
        assert((a + b).last() == b.last());
        match b.last() {
            Some(c) => {
                assert(bundle_of(a) + bundle_of(b) =~= (bundle_of(a) + bundle_of(b.drop_last())).push(
                    (MessageRole::System, c),
                ));
            },
            None => {},
        }
    }
}

/// Context construction is repeatable and keeps fragment order: two bundles
/// built from the same present and absent fragments are the same turns; a
/// present fragment gives exactly one System turn holding its text, an absent
/// one gives none, and the turns of consecutive fragments follow each other.
pub proof fn law_context_repeatable_and_ordered(
    first: Seq<ChatMessage>,
    second: Seq<ChatMessage>,
    f: Seq<Option<Seq<char>>>,
    g: Seq<Option<Seq<char>>>,
    c: Seq<char>,
)
    requires
        turns(first) == bundle_of(f),
        turns(second) == bundle_of(f),
    ensures
        turns(first) == turns(second),
        bundle_of(seq![Some(c)]) == seq![(MessageRole::System, c)],
        bundle_of(seq![None::<Seq<char>>]) == Seq::<Turn>::empty(),
        bundle_of(f + g) == bundle_of(f) + bundle_of(g),
{
    lemma_bundle_concat(f, g);
    assert(seq![Some(c)].drop_last() =~= Seq::<Option<Seq<char>>>::empty());
    assert(seq![Some(c)].last() == Some(c));
    assert(bundle_of(Seq::<Option<Seq<char>>>::empty()) =~= Seq::<Turn>::empty());
    assert(seq![None::<Seq<char>>].drop_last() =~= Seq::<Option<Seq<char>>>::empty());
    assert(bundle_of(seq![Some(c)]) =~= seq![(MessageRole::System, c)]);
}

} // verus!
