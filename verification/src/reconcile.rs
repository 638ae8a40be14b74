//! The resource reconciler: after start-up, the notification rules that
//! buckets already carry are attached to the running notification system.
//!
//! Buckets are independent. A lookup or a registration that fails is
//! recorded for its bucket and the pass goes on with the next one.

use vstd::prelude::*;

verus! {

/// The key filter of a target declaration.
#[derive(Debug, PartialEq, Eq)]
pub struct KeyFilter {
    pub prefix: Option<String>,
    pub suffix: Option<String>,
}

/// One queue, topic or lambda target as a bucket declares it.
#[derive(Debug, PartialEq, Eq)]
pub struct TargetDeclaration {
    /// The identifier of the target.
    pub target: String,
    /// The names of the events that the target is to receive.
    pub events: Vec<String>,
    pub filter: Option<KeyFilter>,
}

/// The notification configuration of one bucket.
#[derive(Debug, PartialEq, Eq)]
pub struct NotificationConfig {
    pub queues: Vec<TargetDeclaration>,
    pub topics: Vec<TargetDeclaration>,
    pub lambdas: Vec<TargetDeclaration>,
}

/// A normalized event rule: the same shape for every kind of target, with
/// an empty prefix or suffix where the declaration has none.
#[derive(Debug, PartialEq, Eq)]
pub struct EventRule {
    pub events: Vec<String>,
    pub prefix: String,
    pub suffix: String,
    pub target: String,
}

/// What an event rule says.
pub struct EventRuleView {
    pub events: Seq<String>,
    pub prefix: Seq<char>,
    pub suffix: Seq<char>,
    pub target: Seq<char>,
}

impl View for EventRule {
    type V = EventRuleView;

    open spec fn view(&self) -> EventRuleView {
        EventRuleView {
            events: self.events@,
            prefix: self.prefix@,
            suffix: self.suffix@,
            target: self.target@,
        }
    }
}

/// The text of an optional part of a filter; empty when it is missing.
pub open spec fn text_or_empty(part: Option<String>) -> Seq<char> {
    match part {
        Some(text) => text@,
        None => Seq::empty(),
    }
}

/// The rule that a declaration stands for.
pub open spec fn rule_of(declaration: TargetDeclaration) -> EventRuleView {
    EventRuleView {
        events: declaration.events@,
        prefix: match declaration.filter {
            Some(filter) => text_or_empty(filter.prefix),
            None => Seq::empty(),
        },
        suffix: match declaration.filter {
            Some(filter) => text_or_empty(filter.suffix),
            None => Seq::empty(),
        },
        target: declaration.target@,
    }
}

/// The rules of a configuration: those of its queues, then of its topics,
/// then of its lambdas, each in the order declared.
pub open spec fn rules_of(config: NotificationConfig) -> Seq<EventRuleView> {
    config.queues@.map_values(|d: TargetDeclaration| rule_of(d)) + config.topics@.map_values(
        |d: TargetDeclaration| rule_of(d),
    ) + config.lambdas@.map_values(|d: TargetDeclaration| rule_of(d))
}

/// What a sequence of rules says.
pub open spec fn rule_views(rules: Seq<EventRule>) -> Seq<EventRuleView> {
    rules.map_values(|r: EventRule| r@)
}

fn text_of(part: Option<String>) -> (text: String)
    ensures
        text@ == text_or_empty(part),
{
    match part {
        Some(text) => text,
        None => String::new(),
    }
}

/// Turns one declaration into its rule.
pub fn normalize_declaration(declaration: TargetDeclaration) -> (rule: EventRule)
    ensures
        rule@ == rule_of(declaration),
{
    let TargetDeclaration { target, events, filter } = declaration;
    match filter {
        Some(KeyFilter { prefix, suffix }) => EventRule {
            events,
            prefix: text_of(prefix),
            suffix: text_of(suffix),
            target,
        },
        None => EventRule { events, prefix: String::new(), suffix: String::new(), target },
    }
}

fn append_rules(rules: &mut Vec<EventRule>, declarations: Vec<TargetDeclaration>)
    ensures
        rule_views(final(rules)@) == rule_views(old(rules)@) + declarations@.map_values(
            |d: TargetDeclaration| rule_of(d),
        ),
{
    let ghost before = rules@;
    let ghost all = declarations@;
    proof {
        assert(all.subrange(0, 0).map_values(|d: TargetDeclaration| rule_of(d)) =~= Seq::empty());
        assert(rule_views(before) + Seq::<EventRuleView>::empty() =~= rule_views(before));
    }
    for declaration in it: declarations
        invariant
            it.seq() == all,
            rule_views(rules@) == rule_views(before) + all.subrange(0, it.index() as int).map_values(
                |d: TargetDeclaration| rule_of(d),
            ),
    {
        let ghost done = rules@;
        let ghost at = it.index() as int;
        let rule = normalize_declaration(declaration);
        rules.push(rule);
        proof {
            assert(declaration == all[at]);
            assert(rule_views(done.push(rule)) =~= rule_views(done).push(rule@));
            assert(all.subrange(0, at + 1) =~= all.subrange(0, at).push(all[at]));
            assert(all.subrange(0, at + 1).map_values(|d: TargetDeclaration| rule_of(d))
                =~= all.subrange(0, at).map_values(|d: TargetDeclaration| rule_of(d)).push(
                rule_of(all[at]),
            ));
            assert(rule_views(rules@) =~= rule_views(before) + all.subrange(0, at + 1).map_values(
                |d: TargetDeclaration| rule_of(d),
            ));
        }
    }
    proof {
        assert(all.subrange(0, all.len() as int) =~= all);
    }
}

/// Turns the queue, topic and lambda declarations of a bucket into event
/// rules.
pub fn normalize(config: NotificationConfig) -> (rules: Vec<EventRule>)
    ensures
        rule_views(rules@) == rules_of(config),
{
    let NotificationConfig { queues, topics, lambdas } = config;
    let mut rules: Vec<EventRule> = Vec::new();
    proof {
        assert(rule_views(rules@) =~= Seq::empty());
    }
    append_rules(&mut rules, queues);
    append_rules(&mut rules, topics);
    append_rules(&mut rules, lambdas);
    proof {
        assert(rule_views(rules@) =~= rules_of(config));
    }
    rules
}

/// The region to register rules under: the configured one, or the empty
/// region when none is set or the one set is empty.
pub fn effective_region(region: Option<String>) -> (text: String)
    ensures
        text@ == text_or_empty(region),
{
    text_of(region)
}

/// What the lookup of a bucket's notification configuration came to.
#[derive(Debug, PartialEq, Eq)]
pub enum LookupResult {
    /// The bucket has no notification configuration.
    Absent,
    /// The bucket has this configuration.
    Present(NotificationConfig),
    /// The lookup failed.
    Failed,
}

/// What became of one bucket in the pass.
#[derive(Clone, Copy, Debug, PartialEq, Eq, Structural)]
pub enum BucketOutcome {
    /// The bucket has no notification configuration; nothing was done.
    NoConfiguration,
    /// The bucket's rules were registered.
    Registered,
    /// The lookup failed; the bucket was passed over.
    LookupFailed,
    /// The registration failed; the bucket was passed over.
    RegistrationFailed,
}

/// The call that the reconciler is waiting on, if any.
#[derive(Clone, Copy, Debug, PartialEq, Eq, Structural)]
pub enum Pending {
    Nothing,
    Lookup,
    Registration,
}

/// A registration to make with the notification system.
#[derive(Debug, PartialEq, Eq)]
pub struct Registration {
    pub bucket: String,
    pub region: String,
    pub rules: Vec<EventRule>,
}

/// The mathematical state of a reconciler.
pub struct ReconcilerView {
    pub buckets: Seq<String>,
    pub region: Seq<char>,
    /// One outcome for each bucket settled so far, in order.
    pub outcomes: Seq<BucketOutcome>,
    pub pending: Pending,
}

impl ReconcilerView {
    /// The state before any bucket was looked at.
    pub open spec fn initial(buckets: Seq<String>, region: Seq<char>) -> ReconcilerView {
        ReconcilerView { buckets, region, outcomes: Seq::empty(), pending: Pending::Nothing }
    }

    /// Whether every bucket has been settled.
    pub open spec fn finished(self) -> bool {
        self.outcomes.len() >= self.buckets.len()
    }

    /// The bucket in hand: the first that is not settled.
    pub open spec fn current(self) -> Option<String> {
        if self.finished() {
            None
        } else {
            Some(self.buckets[self.outcomes.len() as int])
        }
    }

    /// The state with the bucket in hand settled.
    pub open spec fn settled(self, outcome: BucketOutcome) -> ReconcilerView {
        ReconcilerView { outcomes: self.outcomes.push(outcome), pending: Pending::Nothing, ..self }
    }

    /// Asking for the next bucket to look up. There is one when buckets
    /// are left and no call is pending.
    pub open spec fn next_lookup(self) -> (ReconcilerView, Option<String>) {
        if !self.finished() && self.pending == Pending::Nothing {
            (ReconcilerView { pending: Pending::Lookup, ..self }, self.current())
        } else {
            (self, None)
        }
    }

    /// Whether a lookup result is awaited.
    pub open spec fn awaits_lookup(self) -> bool {
        !self.finished() && self.pending == Pending::Lookup
    }

    /// Whether the return of a registration is awaited.
    pub open spec fn awaits_registration(self) -> bool {
        !self.finished() && self.pending == Pending::Registration
    }

    /// Taking a lookup result. A missing configuration and a failed lookup
    /// settle the bucket; a configuration calls for a registration.
    pub open spec fn lookup_finished(self, result: LookupResult) -> ReconcilerView {
        if !self.awaits_lookup() {
            self
        } else {
            match result {
                LookupResult::Absent => self.settled(BucketOutcome::NoConfiguration),
                LookupResult::Failed => self.settled(BucketOutcome::LookupFailed),
                LookupResult::Present(_) => ReconcilerView {
                    pending: Pending::Registration,
                    ..self
                },
            }
        }
    }

    /// Taking the return of a registration. Either way the bucket is
    /// settled.
    pub open spec fn registration_finished(self, succeeded: bool) -> ReconcilerView {
        if !self.awaits_registration() {
            self
        } else if succeeded {
            self.settled(BucketOutcome::Registered)
        } else {
            self.settled(BucketOutcome::RegistrationFailed)
        }
    }
}

/// The resource reconciler.
#[derive(Debug, PartialEq, Eq)]
pub struct Reconciler {
    buckets: Vec<String>,
    region: String,
    outcomes: Vec<BucketOutcome>,
    pending: Pending,
}

impl View for Reconciler {
    type V = ReconcilerView;

    closed spec fn view(&self) -> ReconcilerView {
        ReconcilerView {
            buckets: self.buckets@,
            region: self.region@,
            outcomes: self.outcomes@,
            pending: self.pending,
        }
    }
}

impl Reconciler {
    /// A reconciler for the buckets that start-up listed.
    pub fn new(buckets: Vec<String>, region: Option<String>) -> (r: Self)
        ensures
            r@ == ReconcilerView::initial(buckets@, text_or_empty(region)),
    {
        Reconciler {
            buckets,
            region: effective_region(region),
            outcomes: Vec::new(),
            pending: Pending::Nothing,
        }
    }

    /// Whether every bucket has been settled.
    pub fn is_finished(&self) -> (b: bool)
        ensures
            b == self@.finished(),
    {
        self.outcomes.len() >= self.buckets.len()
    }

    /// The next bucket to look up, if there is one now.
    pub fn next_lookup(&mut self) -> (bucket: Option<String>)
        ensures
            final(self)@ == old(self)@.next_lookup().0,
            bucket == old(self)@.next_lookup().1,
    {
        let at = self.outcomes.len();
        if at < self.buckets.len() && self.pending == Pending::Nothing {
            self.pending = Pending::Lookup;
            Some(self.buckets[at].clone())
        } else {
            None
        }
    }

    /// Takes the result of the lookup in flight. Where the bucket has a
    /// configuration, returns the registration to make: the bucket, the
    /// region, and the rules that the configuration gives.
    pub fn lookup_finished(&mut self, result: LookupResult) -> (registration: Option<Registration>)
        ensures
            final(self)@ == old(self)@.lookup_finished(result),
            match result {
                LookupResult::Present(config) if old(self)@.awaits_lookup() => {
                    &&& registration matches Some(r)
                    &&& Some(r.bucket) == old(self)@.current()
                    &&& r.region@ == old(self)@.region
                    &&& rule_views(r.rules@) == rules_of(config)
                },
                _ => registration is None,
            },
    {
        let at = self.outcomes.len();
        if !(at < self.buckets.len() && self.pending == Pending::Lookup) {
            return None;
        }
        match result {
            LookupResult::Absent => {
                self.outcomes.push(BucketOutcome::NoConfiguration);
                self.pending = Pending::Nothing;
                None
            },
            LookupResult::Failed => {
                self.outcomes.push(BucketOutcome::LookupFailed);
                self.pending = Pending::Nothing;
                None
            },
            LookupResult::Present(config) => {
                self.pending = Pending::Registration;
                Some(
                    Registration {
                        bucket: self.buckets[at].clone(),
                        region: self.region.clone(),
                        rules: normalize(config),
                    },
                )
            },
        }
    }

    /// Takes the return of the registration in flight.
    pub fn registration_finished(&mut self, succeeded: bool)
        ensures
            final(self)@ == old(self)@.registration_finished(succeeded),
    {
        if self.outcomes.len() < self.buckets.len() && self.pending == Pending::Registration {
            if succeeded {
                self.outcomes.push(BucketOutcome::Registered);
            } else {
                self.outcomes.push(BucketOutcome::RegistrationFailed);
            }
            self.pending = Pending::Nothing;
        }
    }

    /// The outcomes of the buckets settled so far, in order.
    pub fn outcomes(&self) -> (outcomes: &Vec<BucketOutcome>)
        ensures
            outcomes@ == self@.outcomes,
    {
        &self.outcomes
    }

    /// The buckets of the pass.
    pub fn buckets(&self) -> (buckets: &Vec<String>)
        ensures
            buckets@ == self@.buckets,
    {
        &self.buckets
    }

    /// Whether any bucket settled so far was passed over for a failure.
    pub fn has_failures(&self) -> (b: bool)
        ensures
            b == exists|i: int|
                0 <= i < self@.outcomes.len() && is_failure(#[trigger] self@.outcomes[i]),
    {
        let mut i: usize = 0;
        while i < self.outcomes.len()
            invariant
                i <= self.outcomes.len(),
                forall|k: int| 0 <= k < i ==> !is_failure(#[trigger] self@.outcomes[k]),
            decreases self.outcomes.len() - i,
        {
            match self.outcomes[i] {
                BucketOutcome::LookupFailed | BucketOutcome::RegistrationFailed => {
                    return true;
                },
                _ => {},
            }
            i = i + 1;
        }
        false
    }
}

/// Whether an outcome records a failure.
pub open spec fn is_failure(outcome: BucketOutcome) -> bool {
    outcome == BucketOutcome::LookupFailed || outcome == BucketOutcome::RegistrationFailed
}

/// How the collaborators behave for one bucket: what the lookup comes to,
/// and whether a registration, if one is made, succeeds.
pub struct Behaviour {
    pub lookup: LookupResult,
    pub registration_succeeds: bool,
}

impl Behaviour {
    /// The outcome of a bucket under a behaviour.
    pub open spec fn outcome(self) -> BucketOutcome {
        match self.lookup {
            LookupResult::Absent => BucketOutcome::NoConfiguration,
            LookupResult::Failed => BucketOutcome::LookupFailed,
            LookupResult::Present(_) => if self.registration_succeeds {
                BucketOutcome::Registered
            } else {
                BucketOutcome::RegistrationFailed
            },
        }
    }
}

impl ReconcilerView {
    /// The state after the bucket in hand has been taken through its
    /// calls, the collaborators behaving as given.
    pub open spec fn handle(self, behaviour: Behaviour) -> ReconcilerView {
        self.next_lookup().0.lookup_finished(behaviour.lookup).registration_finished(
            behaviour.registration_succeeds,
        )
    }

    /// The state after as many buckets as there are behaviours.
    pub open spec fn handle_all(self, behaviours: Seq<Behaviour>) -> ReconcilerView
        decreases behaviours.len(),
    {
        if behaviours.len() == 0 {
            self
        } else {
            self.handle_all(behaviours.drop_last()).handle(behaviours.last())
        }
    }
}

/// Each bucket is settled on its own: whatever the collaborators do for
/// the buckets, the pass settles every one of them, and the outcome of a
/// bucket is decided by what they did for that bucket alone. A failure
/// for one bucket neither ends the pass nor touches another's outcome.
pub proof fn law_buckets_are_settled_independently(
    buckets: Seq<String>,
    region: Seq<char>,
    behaviours: Seq<Behaviour>,
)
    requires
        behaviours.len() <= buckets.len(),
    ensures
        ({
            let end = ReconcilerView::initial(buckets, region).handle_all(behaviours);
            &&& end.pending == Pending::Nothing
            &&& end.buckets == buckets
            &&& end.outcomes.len() == behaviours.len()
            &&& forall|i: int|
                0 <= i < behaviours.len() ==> end.outcomes[i] == (#[trigger] behaviours[i]).outcome()
            &&& behaviours.len() == buckets.len() ==> end.finished()
        }),
    decreases behaviours.len(),
{
    if behaviours.len() > 0 {
        law_buckets_are_settled_independently(buckets, region, behaviours.drop_last());
        let before = ReconcilerView::initial(buckets, region).handle_all(behaviours.drop_last());
        let end = before.handle(behaviours.last());
        assert(forall|i: int|
            0 <= i < behaviours.len() - 1 ==> behaviours.drop_last()[i] == behaviours[i]);
        assert(end.outcomes == before.outcomes.push(behaviours.last().outcome()));
    }
}

} // verus!
