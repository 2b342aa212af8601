//! The stylesheet sink: an append-only list of rules, and the record of
//! which kinds of decorator have put theirs in.

use vstd::prelude::*;
use vstd::string::StringExecFns;

verus! {

/// Identifies a kind of decorator, whatever the number of its instances.
#[derive(Clone, Copy, PartialEq, Eq, Structural, Debug, Hash)]
pub enum DecoratorKind {
    BorderedCell,
    ThickBorders,
    /// A kind defined outside this library, under a number of its choosing.
    Other(u64),
}

/// What a stylesheet sink is: the rules inserted so far, oldest first, and
/// the kinds whose registration has run.
pub ghost struct MungerView {
    pub rules: Seq<Seq<char>>,
    pub registered: Set<DecoratorKind>,
}

impl MungerView {
    /// The sink before anything reached it.
    pub open spec fn empty() -> MungerView {
        MungerView { rules: Seq::empty(), registered: Set::empty() }
    }

    /// The sink with `rule` appended.
    pub open spec fn insert_rule(self, rule: Seq<char>) -> MungerView {
        MungerView { rules: self.rules.push(rule), ..self }
    }

    /// The sink with `kind` recorded as registered.
    pub open spec fn mark(self, kind: DecoratorKind) -> MungerView {
        MungerView { registered: self.registered.insert(kind), ..self }
    }

    /// The sink after a registration of `kind` that would insert `rules`:
    /// the first registration of a kind appends its rules and records the
    /// kind; any later one changes nothing.
    pub open spec fn register_once(self, kind: DecoratorKind, rules: Seq<Seq<char>>) -> MungerView {
        if self.registered.contains(kind) {
            self
        } else {
            MungerView { rules: self.rules + rules, registered: self.registered.insert(kind) }
        }
    }
}

/// Registration is one-shot for each kind: once a kind has registered, a
/// further registration of that kind leaves the sink as it is, whichever
/// instance asks and whatever rules it would insert.
pub proof fn lemma_register_once_idempotent(
    m: MungerView,
    kind: DecoratorKind,
    rules: Seq<Seq<char>>,
    again: Seq<Seq<char>>,
)
    ensures
        m.register_once(kind, rules).registered.contains(kind),
        m.register_once(kind, rules).register_once(kind, again) == m.register_once(kind, rules),
{
}

/// The guard is keyed by kind and not by rule text: two kinds that insert
/// the same rules both get them in, in the order of their registration.
pub proof fn lemma_register_distinct_kinds(
    m: MungerView,
    first: DecoratorKind,
    second: DecoratorKind,
    rules: Seq<Seq<char>>,
)
    requires
        first != second,
        !m.registered.contains(first),
        !m.registered.contains(second),
    ensures
        m.register_once(first, rules).register_once(second, rules).rules == m.rules + rules
            + rules,
{
}

/// A registered kind stays registered, and the rules already in stay where
/// they are, whatever reaches the sink afterwards.
pub proof fn lemma_sink_only_grows(
    m: MungerView,
    kind: DecoratorKind,
    other: DecoratorKind,
    rules: Seq<Seq<char>>,
    rule: Seq<char>,
)
    requires
        m.registered.contains(kind),
    ensures
        m.register_once(other, rules).registered.contains(kind),
        m.insert_rule(rule).registered.contains(kind),
        m.rules.is_prefix_of(m.register_once(other, rules).rules),
        m.rules.is_prefix_of(m.insert_rule(rule).rules),
{
}

/// The stylesheet sink.
pub struct CssMunger {
    rules: Vec<String>,
    registered: Vec<DecoratorKind>,
}

impl View for CssMunger {
    type V = MungerView;

    closed spec fn view(&self) -> MungerView {
        MungerView { rules: self.rules.deep_view(), registered: self.registered@.to_set() }
    }
}

impl CssMunger {
    /// A sink that nothing has reached yet.
    pub fn new() -> (m: CssMunger)
        ensures
            m@ == MungerView::empty(),
    {
        let m = CssMunger { rules: Vec::new(), registered: Vec::new() };
        assert(m@.rules =~= Seq::empty());
        assert(m@.registered =~= Set::empty());
        m
    }

    /// Appends `rule` to the stylesheet.
    pub fn insert_rule(&mut self, rule: &str)
        ensures
            final(self)@ == old(self)@.insert_rule(rule@),
    {
        self.rules.push(String::from_str(rule));
        assert(self@.rules =~= old(self)@.rules.push(rule@));
    }

    /// Whether a registration of `kind` has run.
    pub fn is_registered(&self, kind: DecoratorKind) -> (b: bool)
        ensures
            b == self@.registered.contains(kind),
    {
        let mut i: usize = 0;
        while i < self.registered.len()
            invariant
                i <= self.registered.len(),
                forall|k: int| 0 <= k < i ==> self.registered@[k] != kind,
            decreases self.registered.len() - i,
        {
            if self.registered[i] == kind {
                assert(self.registered@.contains(kind));
                return true;
            }
            i += 1;
        }
        false
    }

    /// Checks and sets the guard of `kind`: says whether this is the first
    /// registration of the kind, and records the kind.
    pub fn begin_registration(&mut self, kind: DecoratorKind) -> (first: bool)
        ensures
            first == !old(self)@.registered.contains(kind),
            final(self)@ == old(self)@.mark(kind),
    {
        if self.is_registered(kind) {
            assert(self@.registered =~= old(self)@.registered.insert(kind));
            false
        } else {
            self.registered.push(kind);
            assert(self.registered@.to_set() =~= old(self).registered@.to_set().insert(kind)) by {
                assert forall|k: DecoratorKind|
                    self.registered@.contains(k) <==> (old(self).registered@.contains(k) || k
                        == kind) by {
                    if self.registered@.contains(k) {
                        let i = choose|i: int|
                            0 <= i < self.registered@.len() && self.registered@[i] == k;
                        if i < old(self).registered@.len() {
                            assert(old(self).registered@[i] == k);
                        }
                    }
                    if old(self).registered@.contains(k) {
                        let i = choose|i: int|
                            0 <= i < old(self).registered@.len() && old(self).registered@[i] == k;
                        assert(self.registered@[i] == k);
                    }
                    if k == kind {
                        assert(self.registered@[old(self).registered@.len() as int] == k);
                    }
                }
            }
            true
        }
    }

    /// Every rule inserted so far, oldest first.
    pub fn rules(&self) -> (rules: &Vec<String>)
        ensures
            rules.deep_view() == self@.rules,
    {
        &self.rules
    }
}

} // verus!
