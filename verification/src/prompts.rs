//! The permission prompt: which request is on screen, and which one an answer
//! reaches.
use vstd::prelude::*;
use vstd::string::*;
use crate::keys::PromptOutcome;
use crate::text;
use crate::text::copy_texts;

verus! {

/// A request that waits for an answer.
#[derive(Debug)]
pub struct PendingPermission {
    /// A number that tells requests apart.
    pub identity: u64,
    /// The engine's own name for the request.
    pub resolve_id: Option<String>,
    pub origin: String,
    /// The capabilities that are asked for, by number.
    pub capabilities: Vec<u32>,
    /// The same in words.
    pub labels: Vec<String>,
}

/// The contents of a [`PendingPermission`].
pub struct PendingView {
    pub identity: u64,
    pub resolve_id: Option<Seq<char>>,
    pub origin: Seq<char>,
    pub capabilities: Seq<u32>,
    pub labels: Seq<Seq<char>>,
}

impl View for PendingPermission {
    type V = PendingView;

    open spec fn view(&self) -> PendingView {
        PendingView {
            identity: self.identity,
            resolve_id: match self.resolve_id {
                Some(s) => Some(s@),
                None => None,
            },
            origin: self.origin@,
            capabilities: self.capabilities@,
            labels: text::texts(self.labels@),
        }
    }
}

/// The contents of a queue.
pub open spec fn queue_view(q: Seq<PendingPermission>) -> Seq<PendingView> {
    q.map_values(|p: PendingPermission| p@)
}

/// The prompt on screen.
#[derive(Debug)]
pub struct PermissionsPrompt {
    /// The request that it shows.
    pub identity: u64,
    pub origin: String,
    pub capabilities: Vec<String>,
    /// How many more wait behind it.
    pub queue_len: u32,
}

/// The contents of a [`PermissionsPrompt`].
#[verifier::ext_equal]
pub struct PromptView {
    pub identity: u64,
    pub origin: Seq<char>,
    pub capabilities: Seq<Seq<char>>,
    pub queue_len: u32,
}

impl View for PermissionsPrompt {
    type V = PromptView;

    open spec fn view(&self) -> PromptView {
        PromptView {
            identity: self.identity,
            origin: self.origin@,
            capabilities: text::texts(self.capabilities@),
            queue_len: self.queue_len,
        }
    }
}

/// How many requests wait behind the front of a queue.
pub open spec fn behind(total: nat) -> u32 {
    if total == 0 {
        0
    } else {
        (total - 1) as u32
    }
}

/// The prompt for the front of a queue.
pub open spec fn prompt_for(q: Seq<PendingView>) -> Option<PromptView> {
    if q.len() == 0 {
        None
    } else {
        Some(
            PromptView {
                identity: q[0].identity,
                origin: q[0].origin,
                capabilities: q[0].labels,
                queue_len: behind(q.len()),
            },
        )
    }
}

/// Whether a prompt shows the front of a queue.
pub open spec fn current(shown: Option<PromptView>, q: Seq<PendingView>) -> bool {
    shown is Some && q.len() > 0 && shown->0.identity == q[0].identity
}

/// The prompt after a look at the queue, and whether it changed. One that shows
/// the front stays as it is.
pub open spec fn synced(shown: Option<PromptView>, q: Option<Seq<PendingView>>) -> (
    Option<PromptView>,
    bool,
) {
    match q {
        None => (None, shown is Some),
        Some(q) => if current(shown, q) {
            (shown, false)
        } else {
            (prompt_for(q), shown is Some || q.len() > 0)
        },
    }
}

/// What is remembered of an answer.
#[derive(Debug, Clone, Copy, PartialEq, Eq, Structural)]
pub enum Decision {
    Allow,
    Deny,
}

/// What is remembered of an answer.
pub open spec fn remembered(outcome: PromptOutcome) -> Option<Decision> {
    match outcome {
        PromptOutcome::Allow { remember } => if remember { Some(Decision::Allow) } else { None },
        PromptOutcome::Deny { remember } => if remember { Some(Decision::Deny) } else { None },
        PromptOutcome::Defer => None,
    }
}

/// What an answer leads to.
#[derive(Debug)]
pub enum ResolveStep {
    /// The request on screen had been withdrawn: the answer is discarded.
    Stale,
    /// Hand the answer to the engine for this request, and store the decision
    /// for each of its capabilities if there is one.
    Apply { request: PendingPermission, store: Option<Decision> },
}

/// A step without its strings.
pub enum ResolveView {
    Stale,
    Apply { request: PendingView, store: Option<Decision> },
}

impl View for ResolveStep {
    type V = ResolveView;

    open spec fn view(&self) -> ResolveView {
        match self {
            ResolveStep::Stale => ResolveView::Stale,
            ResolveStep::Apply { request, store } => ResolveView::Apply {
                request: request@,
                store: *store,
            },
        }
    }
}

/// The answer to the prompt on screen: the queue that is left, the prompt that
/// comes up, and what the answer leads to.
pub open spec fn answered(
    shown: Option<PromptView>,
    q: Seq<PendingView>,
    outcome: PromptOutcome,
) -> (Option<PromptView>, Seq<PendingView>, ResolveView) {
    if current(shown, q) {
        (
            prompt_for(q.remove(0)),
            q.remove(0),
            ResolveView::Apply { request: q[0], store: remembered(outcome) },
        )
    } else {
        (prompt_for(q), q, ResolveView::Stale)
    }
}

/// The permission prompt.
pub struct Prompts {
    pub shown: Option<PermissionsPrompt>,
}

impl View for Prompts {
    type V = Option<PromptView>;

    open spec fn view(&self) -> Option<PromptView> {
        match self.shown {
            Some(p) => Some(p@),
            None => None,
        }
    }
}

/// How many requests wait behind the front of a queue.
fn count_behind(total: usize) -> (r: u32)
    ensures
        r == behind(total as nat),
{
    if total == 0 {
        0
    } else {
        (total - 1) as u32
    }
}

/// The prompt for the front of a queue.
fn make_prompt(queue: &Vec<PendingPermission>) -> (r: Option<PermissionsPrompt>)
    ensures
        (match r {
            Some(p) => Some(p@),
            None => None,
        }) == prompt_for(queue_view(queue@)),
{
    if queue.len() == 0 {
        return None;
    }
    let front = &queue[0];
    let prompt = PermissionsPrompt {
        identity: front.identity,
        origin: front.origin.clone(),
        capabilities: copy_texts(&front.labels),
        queue_len: count_behind(queue.len()),
    };
    proof {
        assert(queue_view(queue@)[0] == front@);
    }
    Some(prompt)
}

impl Prompts {
    /// No prompt.
    pub fn new() -> (r: Self)
        ensures
            r@ is None,
    {
        Prompts { shown: None }
    }

    /// Take the prompt down. Returns whether there was one.
    pub fn clear_permissions_prompt(&mut self) -> (had: bool)
        ensures
            final(self)@ is None,
            had == (old(self)@ is Some),
    {
        let had = self.shown.is_some();
        self.shown = None;
        had
    }

    /// Whether the prompt shows the front of the queue.
    fn is_current(&self, queue: &Vec<PendingPermission>) -> (r: bool)
        ensures
            r == current(self@, queue_view(queue@)),
    {
        match &self.shown {
            Some(p) => {
                if queue.len() == 0 {
                    return false;
                }
                let id: u64 = queue[0].identity;
                proof {
                    assert(queue_view(queue@)[0] == queue@[0]@);
                }
                p.identity == id
            },
            None => false,
        }
    }

    /// Show the front of the queue; `queue` is `None` without an engine. Returns
    /// whether the prompt changed.
    pub fn sync_permissions_prompt(&mut self, queue: Option<&Vec<PendingPermission>>) -> (changed:
        bool)
        ensures
            (final(self)@, changed) == synced(
                old(self)@,
                match queue {
                    Some(q) => Some(queue_view(q@)),
                    None => None,
                },
            ),
    {
        let queue = match queue {
            Some(q) => q,
            None => {
                return self.clear_permissions_prompt();
            },
        };
        if self.is_current(queue) {
            return false;
        }
        let had = self.clear_permissions_prompt();
        self.shown = make_prompt(queue);
        had || queue.len() > 0
    }

    /// Answer the prompt on screen. If the request that it shows is no longer at
    /// the front of the queue, the answer is discarded and the queue stays as it
    /// is.
    pub fn resolve_permission(
        &mut self,
        queue: &mut Vec<PendingPermission>,
        outcome: PromptOutcome,
    ) -> (step: ResolveStep)
        ensures
            (final(self)@, queue_view(final(queue)@), step@) == answered(
                old(self)@,
                queue_view(old(queue)@),
                outcome,
            ),
    {
        if !self.is_current(&*queue) {
            self.shown = make_prompt(&*queue);
            return ResolveStep::Stale;
        }
        let ghost before = queue@;
        let request = queue.remove(0);
        proof {
            assert(queue_view(before)[0] == before[0]@);
            assert(queue_view(queue@) =~= queue_view(before).remove(0));
        }
        let store = match outcome {
            PromptOutcome::Allow { remember } => {
                if remember {
                    Some(Decision::Allow)
                } else {
                    None
                }
            },
            PromptOutcome::Deny { remember } => {
                if remember {
                    Some(Decision::Deny)
                } else {
                    None
                }
            },
            PromptOutcome::Defer => None,
        };
        self.shown = make_prompt(&*queue);
        ResolveStep::Apply { request, store }
    }
}

/// Law: an answer reaches the request that was on screen or none at all, and a
/// discarded answer leaves the queue as it was.
pub proof fn law_answer_reaches_what_was_shown(
    shown: Option<PromptView>,
    q: Seq<PendingView>,
    outcome: PromptOutcome,
)
    ensures
        ({
            let (_, left, step) = answered(shown, q, outcome);
            match step {
                ResolveView::Apply { request, .. } => {
                    &&& shown is Some
                    &&& request.identity == shown->0.identity
                    &&& left == q.remove(0)
                },
                ResolveView::Stale => left == q,
            }
        }),
{
}

/// Law: nothing is stored for an answer that was not to be remembered, nor for a
/// deferred one, nor for a discarded one.
pub proof fn law_only_remembered_answers_are_stored(
    shown: Option<PromptView>,
    q: Seq<PendingView>,
    outcome: PromptOutcome,
)
    ensures
        ({
            let (_, _, step) = answered(shown, q, outcome);
            step matches ResolveView::Apply { store: Some(d), .. } ==> match d {
                Decision::Allow => outcome == (PromptOutcome::Allow { remember: true }),
                Decision::Deny => outcome == (PromptOutcome::Deny { remember: true }),
            }
        }),
{
}

/// Law: after a look at the queue the prompt shows its front, and there is none
/// where nothing waits; a second look changes nothing.
pub proof fn law_prompt_shows_the_front(shown: Option<PromptView>, q: Seq<PendingView>)
    ensures
        ({
            let (now, _) = synced(shown, Some(q));
            &&& now is Some == (q.len() > 0)
            &&& q.len() > 0 ==> now->0.identity == q[0].identity
            &&& synced(now, Some(q)) == (now, false)
        }),
{
}

/// Law: a prompt shows the request at the front of the queue: who asks, what for,
/// and how many others wait.
pub proof fn law_prompt_shows_the_request(q: Seq<PendingView>)
    ensures
        q.len() == 0 ==> prompt_for(q) is None,
        0 < q.len() <= u32::MAX ==> {
            let p = prompt_for(q)->0;
            &&& prompt_for(q) is Some
            &&& p.identity == q[0].identity
            &&& p.origin == q[0].origin
            &&& p.capabilities == q[0].labels
            &&& p.queue_len + 1 == q.len()
        },
{
}

/// Law: a prompt stays exactly while its request is at the front, and it is said
/// to have changed exactly where another one, or none, is shown in its place, or
/// one where none was. Without an engine there is no prompt.
pub proof fn law_prompt_stays_with_its_request(shown: Option<PromptView>, q: Seq<PendingView>)
    ensures
        ({
            let (now, changed) = synced(shown, Some(q));
            let same = shown is Some && q.len() > 0 && shown->0.identity == q[0].identity;
            &&& same ==> now == shown && !changed
            &&& !same ==> now == prompt_for(q)
            &&& !same ==> (changed <==> shown is Some || q.len() > 0)
            &&& synced(shown, None).0 is None
            &&& synced(shown, None).1 <==> shown is Some
        }),
{
}

/// Law: an answer to the request on screen is applied to that request, which
/// leaves the queue, and is stored exactly where it is to be remembered; the next
/// request comes up. An answer to a request that is no longer at the front is
/// discarded, and the front comes up.
pub proof fn law_answer_takes_the_request_off_the_queue(
    shown: Option<PromptView>,
    q: Seq<PendingView>,
    outcome: PromptOutcome,
)
    ensures
        ({
            let (next, left, step) = answered(shown, q, outcome);
            let same = shown is Some && q.len() > 0 && shown->0.identity == q[0].identity;
            &&& step is Apply <==> same
            &&& same ==> {
                &&& step->request == q[0]
                &&& left == q.subrange(1, q.len() as int)
                &&& step->store == Some(Decision::Allow) <==> outcome == (PromptOutcome::Allow {
                    remember: true,
                })
                &&& step->store == Some(Decision::Deny) <==> outcome == (PromptOutcome::Deny {
                    remember: true,
                })
            }
            &&& !same ==> left == q
            &&& next == prompt_for(left)
        }),
{
    if q.len() > 0 {
        assert(q.remove(0) =~= q.subrange(1, q.len() as int));
    }
}

/// Law: the models of the requests and of the prompt show each part of them, the requests
/// in their order.
pub proof fn law_requests_are_seen_whole(v: Seq<PendingPermission>, x: PendingPermission, p: PermissionsPrompt, s: Prompts)
    ensures
        queue_view(v).len() == v.len(),
        forall|i: int| 0 <= i < v.len() ==> #[trigger] queue_view(v)[i] == v[i]@,
        x@.identity == x.identity,
        x@.origin == x.origin@,
        x@.capabilities == x.capabilities@,
        x@.resolve_id is Some <==> x.resolve_id is Some,
        x.resolve_id is Some ==> x@.resolve_id->0 == x.resolve_id->0@,
        x@.labels == text::texts(x.labels@),
        p@.identity == p.identity,
        p@.origin == p.origin@,
        p@.capabilities == text::texts(p.capabilities@),
        p@.queue_len == p.queue_len,
        s@ is Some <==> s.shown is Some,
        s.shown is Some ==> s@->0 == s.shown->0@,
{
}

/// Law: the model of an answer keeps the request that it is for and what is stored.
pub proof fn law_answers_are_seen_whole(r: PendingPermission, store: Option<Decision>)
    ensures
        ResolveStep::Stale@ is Stale,
        (ResolveStep::Apply { request: r, store })@ == (ResolveView::Apply { request: r@, store }),
{
}

} // verus!
