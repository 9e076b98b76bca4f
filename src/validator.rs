use vstd::prelude::*;

verus! {

/// What one liveness probe of a URL came back with.
#[derive(Debug, Clone, Copy, PartialEq, Eq, Structural)]
pub enum ProbeOutcome {
    /// The server answered with this HTTP status code.
    Status(u16),
    /// No answer: timeout, refused connection or another transport failure.
    TransportFailed,
}

/// The text of each string in a sequence.
pub open spec fn texts(v: Seq<String>) -> Seq<Seq<char>> {
    v.map_values(|s: String| s@)
}

/// Only an answer other than 200 condemns a URL; a probe that got no answer
/// says nothing about it.
pub open spec fn confirms_unreachable(o: ProbeOutcome) -> bool {
    match o {
        ProbeOutcome::Status(code) => code != 200,
        ProbeOutcome::TransportFailed => false,
    }
}

/// Some probe of a URL with text `u` confirmed it unreachable.
pub open spec fn condemned(u: Seq<char>, urls: Seq<Seq<char>>, outcomes: Seq<ProbeOutcome>) -> bool {
    exists|j: int| 0 <= j < urls.len() && j < outcomes.len() && urls[j] == u
        && confirms_unreachable(#[trigger] outcomes[j])
}

/// The first `n` URLs, in order, without the condemned ones.
pub open spec fn kept(urls: Seq<Seq<char>>, outcomes: Seq<ProbeOutcome>, n: nat) -> Seq<Seq<char>>
    decreases n,
{
    if n == 0 {
        Seq::empty()
    } else {
        let before = kept(urls, outcomes, (n - 1) as nat);
        if condemned(urls[n - 1], urls, outcomes) {
            before
        } else {
            before.push(urls[n - 1])
        }
    }
}

/// The URL list that the validator leaves behind.
pub open spec fn pruned(urls: Seq<Seq<char>>, outcomes: Seq<ProbeOutcome>) -> Seq<Seq<char>> {
    kept(urls, outcomes, urls.len())
}

/// Some probe confirmed a URL unreachable.
pub open spec fn any_condemned(outcomes: Seq<ProbeOutcome>) -> bool {
    exists|i: int| 0 <= i < outcomes.len() && confirms_unreachable(#[trigger] outcomes[i])
}

/// Whether any probe answered with a status other than 200.
pub fn any_unreachable(outcomes: &Vec<ProbeOutcome>) -> (r: bool)
    ensures
        r == any_condemned(outcomes@),
{
    let mut i: usize = 0;
    while i < outcomes.len()
        invariant
            i <= outcomes.len(),
            forall|k: int| 0 <= k < i ==> !confirms_unreachable(#[trigger] outcomes@[k]),
        decreases outcomes.len() - i,
    {
        match outcomes[i] {
            ProbeOutcome::Status(code) => {
                if code != 200 {
                    return true;
                }
            },
            ProbeOutcome::TransportFailed => {},
        }
        i = i + 1;
    }
    false
}

/// Whether some probe of a URL equal to `u` confirmed it unreachable.
fn is_condemned(urls: &Vec<String>, outcomes: &Vec<ProbeOutcome>, u: &String) -> (r: bool)
    requires
        urls.len() == outcomes.len(),
    ensures
        r == condemned(u@, texts(urls@), outcomes@),
{
    let mut j: usize = 0;
    while j < urls.len()
        invariant
            j <= urls.len(),
            urls.len() == outcomes.len(),
            forall|k: int|
                0 <= k < j ==> !(urls@[k]@ == u@ && confirms_unreachable(#[trigger] outcomes@[k])),
        decreases urls.len() - j,
    {
        if urls[j] == *u {
            match outcomes[j] {
                ProbeOutcome::Status(code) => {
                    if code != 200 {
                        assert(texts(urls@)[j as int] == u@);
                        return true;
                    }
                },
                ProbeOutcome::TransportFailed => {},
            }
        }
        j = j + 1;
    }
    proof {
        assert forall|k: int|
            0 <= k < texts(urls@).len() && k < outcomes@.len() && texts(urls@)[k] == u@
                implies !confirms_unreachable(#[trigger] outcomes@[k]) by {
            assert(urls@[k]@ == texts(urls@)[k]);
        }
    }
    false
}

/// The URLs in their original order, without every URL that some probe
/// confirmed unreachable (status other than 200). A URL whose probes got no
/// answer stays.
pub fn prune_urls(urls: &Vec<String>, outcomes: &Vec<ProbeOutcome>) -> (r: Vec<String>)
    requires
        urls.len() == outcomes.len(),
    ensures
        texts(r@) == pruned(texts(urls@), outcomes@),
{
    let ghost all = texts(urls@);
    let mut out: Vec<String> = Vec::new();
    let mut i: usize = 0;
    while i < urls.len()
        invariant
            i <= urls.len(),
            urls.len() == outcomes.len(),
            all == texts(urls@),
            texts(out@) == kept(all, outcomes@, i as nat),
        decreases urls.len() - i,
    {
        let u = &urls[i];
        let gone = is_condemned(urls, outcomes, u);
        assert(all[i as int] == u@);
        if !gone {
            let ghost prev = out@;
            let c = u.clone();
            out.push(c);
            assert(texts(out@) =~= texts(prev).push(u@));
        }
        i = i + 1;
    }
    out
}

/// The kept prefix holds exactly the first `n` URLs that are not condemned.
proof fn lemma_kept_members(urls: Seq<Seq<char>>, outcomes: Seq<ProbeOutcome>, n: nat)
    requires
        n <= urls.len(),
    ensures
        forall|k: int|
            0 <= k < n && !condemned(urls[k], urls, outcomes) ==> kept(urls, outcomes, n).contains(
                #[trigger] urls[k],
            ),
        forall|u: Seq<char>|
            #[trigger] kept(urls, outcomes, n).contains(u) ==> !condemned(u, urls, outcomes)
                && urls.subrange(0, n as int).contains(u),
        kept(urls, outcomes, n).len() <= n,
    decreases n,
{
    if n > 0 {
        let m = (n - 1) as nat;
        lemma_kept_members(urls, outcomes, m);
        let before = kept(urls, outcomes, m);
        assert forall|k: int|
            0 <= k < n && !condemned(urls[k], urls, outcomes) implies kept(
            urls,
            outcomes,
            n,
        ).contains(#[trigger] urls[k]) by {
            if k < m {
                let w = choose|w: int| 0 <= w < before.len() && before[w] == urls[k];
                if !condemned(urls[m as int], urls, outcomes) {
                    assert(before.push(urls[m as int])[w] == urls[k]);
                }
            } else {
                assert(before.push(urls[m as int])[before.len() as int] == urls[k]);
            }
        }
        assert forall|u: Seq<char>| #[trigger] kept(urls, outcomes, n).contains(u) implies !condemned(
            u,
            urls,
            outcomes,
        ) && urls.subrange(0, n as int).contains(u) by {
            let w = choose|w: int|
                0 <= w < kept(urls, outcomes, n).len() && kept(urls, outcomes, n)[w] == u;
            if w < before.len() {
                if condemned(urls[m as int], urls, outcomes) {
                    assert(kept(urls, outcomes, n) == before);
                } else {
                    assert(kept(urls, outcomes, n) == before.push(urls[m as int]));
                    assert(before.push(urls[m as int])[w] == before[w]);
                }
                assert(before[w] == u);
                assert(before.contains(u));
                let x = choose|x: int|
                    0 <= x < urls.subrange(0, m as int).len() && urls.subrange(0, m as int)[x]
                        == u;
                assert(urls.subrange(0, n as int)[x] == u);
            } else {
                assert(u == urls[m as int]);
                assert(urls.subrange(0, n as int)[m as int] == u);
            }
        }
    }
}

/// Pruning only removes: every URL left was in the list and is not condemned,
/// and the list never grows.
pub proof fn lemma_pruning_only_shrinks(urls: Seq<Seq<char>>, outcomes: Seq<ProbeOutcome>)
    ensures
        pruned(urls, outcomes).len() <= urls.len(),
        forall|u: Seq<char>|
            #[trigger] pruned(urls, outcomes).contains(u) ==> urls.contains(u) && !condemned(
                u,
                urls,
                outcomes,
            ),
{
    lemma_kept_members(urls, outcomes, urls.len());
    assert(urls.subrange(0, urls.len() as int) =~= urls);
}

/// A URL whose probe got no answer, and that no other probe found answering
/// with a status other than 200, stays in the list.
pub proof fn lemma_transport_failure_keeps_url(
    urls: Seq<Seq<char>>,
    outcomes: Seq<ProbeOutcome>,
    i: int,
)
    requires
        urls.len() == outcomes.len(),
        0 <= i < urls.len(),
        outcomes[i] == ProbeOutcome::TransportFailed,
        forall|j: int|
            0 <= j < urls.len() && urls[j] == urls[i] ==> !confirms_unreachable(
                #[trigger] outcomes[j],
            ),
    ensures
        pruned(urls, outcomes).contains(urls[i]),
{
    lemma_kept_members(urls, outcomes, urls.len());
}

/// Validating again a list whose probes all answer 200 changes nothing: no
/// URL is condemned and the pruned list equals the list.
pub proof fn lemma_revalidation_is_noop(urls: Seq<Seq<char>>, outcomes: Seq<ProbeOutcome>)
    requires
        urls.len() == outcomes.len(),
        forall|i: int| 0 <= i < outcomes.len() ==> #[trigger] outcomes[i] == ProbeOutcome::Status(200),
    ensures
        !any_condemned(outcomes),
        pruned(urls, outcomes) == urls,
{
    lemma_kept_all(urls, outcomes, urls.len());
    assert(urls.subrange(0, urls.len() as int) =~= urls);
}

proof fn lemma_kept_all(urls: Seq<Seq<char>>, outcomes: Seq<ProbeOutcome>, n: nat)
    requires
        n <= urls.len(),
        urls.len() == outcomes.len(),
        forall|i: int| 0 <= i < outcomes.len() ==> #[trigger] outcomes[i] == ProbeOutcome::Status(200),
    ensures
        kept(urls, outcomes, n) == urls.subrange(0, n as int),
    decreases n,
{
    if n > 0 {
        lemma_kept_all(urls, outcomes, (n - 1) as nat);
        assert(urls.subrange(0, n as int) =~= urls.subrange(0, n - 1).push(urls[n - 1]));
    } else {
        assert(urls.subrange(0, 0) =~= Seq::<Seq<char>>::empty());
    }
}

} // verus!
