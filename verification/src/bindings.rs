use vstd::prelude::*;
use vstd::string::StringExecFns;
use crate::frame::CommandFrame;
use crate::table::{is_known_command, resolve, spec_frame_for};

verus! {

broadcast use vstd::seq_lib::group_seq_properties;

/// An external trigger identifier: one physical key the trigger source can
/// watch and deliver firings for. The variants name the keys of the default
/// table plus the designated control key.
#[derive(Clone, Copy, Debug, PartialEq, Eq, Structural)]
pub enum Trigger {
    F1,
    F2,
    H,
    N,
    UpArrow,
    W,
    DownArrow,
    S,
    D,
    RightArrow,
    A,
    LeftArrow,
    Enter,
    Backspace,
    Num1,
    Num2,
    Num3,
    Num4,
    ScrollLock,
}

/// One static association between a trigger and the command it dispatches
/// while the Binding Set is active. Created once at startup and never
/// mutated; only its active/inactive status — a property of the external
/// trigger source — changes.
pub struct Binding {
    pub trigger: Trigger,
    pub name: String,
    pub frame: CommandFrame,
}

impl Binding {
    /// A valid binding names a command of the Command Table and stores
    /// exactly the documented frame for it.
    pub open spec fn wf(self) -> bool {
        &&& spec_frame_for(self.name@) == Some(self.frame@)
        &&& self.frame.wf()
    }

    /// Creates one binding; the name must be in the Command Table with
    /// exactly this frame.
    pub fn new(trigger: Trigger, name: String, frame: CommandFrame) -> (r: Binding)
        requires
            spec_frame_for(name@) == Some(frame@),
            frame.wf(),
        ensures
            r.wf(),
            r.trigger == trigger,
            r.name@ == name@,
            r.frame@ == frame@,
    {
        Binding { trigger, name, frame }
    }
}

/// The model of the external trigger source's registration state: the set of
/// triggers it currently has a callback bound for.
pub struct TriggerRegistry {
    bound: Vec<Trigger>,
}

impl TriggerRegistry {
    /// Whether the trigger source currently has this trigger registered.
    pub closed spec fn is_bound(self, t: Trigger) -> bool {
        self.bound@.contains(t)
    }

    /// A fresh source: nothing registered.
    pub fn new() -> (r: TriggerRegistry)
        ensures
            forall|t: Trigger| !r.is_bound(t),
    {
        TriggerRegistry { bound: Vec::new() }
    }

    /// Registers one trigger.
    pub fn register(&mut self, t: Trigger)
        ensures
            forall|u: Trigger| final(self).is_bound(u) <==> (old(self).is_bound(u) || u == t),
    {
        self.bound.push(t);
    }

    /// Whether this trigger is currently registered.
    pub fn registered(&self, t: Trigger) -> (r: bool)
        ensures
            r == self.is_bound(t),
    {
        let mut i: usize = 0;
        while i < self.bound.len()
            invariant
                0 <= i <= self.bound@.len(),
                forall|j: int| 0 <= j < i ==> self.bound@[j] != t,
            decreases self.bound@.len() - i,
        {
            if self.bound[i] == t {
                return true;
            }
            i += 1;
        }
        false
    }
}

/// The Binding Set: the full, fixed collection of bindings, established at
/// startup and read-only afterwards. It is activated and deactivated only as
/// a whole — never partially.
pub struct BindingSet {
    bindings: Vec<Binding>,
}

impl BindingSet {
    /// The bindings, in table order.
    pub closed spec fn bindings_seq(self) -> Seq<Binding> {
        self.bindings@
    }

    /// Whether some binding of the set watches this trigger.
    pub open spec fn has_trigger(self, t: Trigger) -> bool {
        exists|i: int|
            0 <= i < self.bindings_seq().len() && (#[trigger] self.bindings_seq()[i]).trigger == t
    }

    /// The frame of the (unique) binding watching this trigger.
    pub open spec fn frame_of_trigger(self, t: Trigger) -> Seq<u8> {
        let i = choose|i: int|
            0 <= i < self.bindings_seq().len() && (#[trigger] self.bindings_seq()[i]).trigger == t;
        self.bindings_seq()[i].frame@
    }

    /// Every binding is valid and no trigger is watched twice.
    pub open spec fn wf(self) -> bool {
        &&& forall|i: int|
            0 <= i < self.bindings_seq().len() ==> (#[trigger] self.bindings_seq()[i]).wf()
        &&& forall|i: int, j: int|
            0 <= i < self.bindings_seq().len() && 0 <= j < self.bindings_seq().len() && i != j
                ==> (#[trigger] self.bindings_seq()[i]).trigger != (
            #[trigger] self.bindings_seq()[j]).trigger
    }

    /// How many bindings the set holds.
    pub fn len(&self) -> (n: usize)
        ensures
            n == self.bindings_seq().len(),
    {
        self.bindings.len()
    }

    /// The binding at one position of the table.
    pub fn get(&self, i: usize) -> (r: &Binding)
        requires
            i < self.bindings_seq().len(),
        ensures
            *r == self.bindings_seq()[i as int],
    {
        &self.bindings[i]
    }

    /// The position of the binding watching this trigger, if any.
    pub fn find_trigger(&self, t: Trigger) -> (r: Option<usize>)
        ensures
            match r {
                Some(i) => i < self.bindings_seq().len() && self.bindings_seq()[i as int].trigger
                    == t,
                None => !self.has_trigger(t),
            },
    {
        let mut i: usize = 0;
        while i < self.bindings.len()
            invariant
                0 <= i <= self.bindings_seq().len(),
                forall|j: int| 0 <= j < i ==> (#[trigger] self.bindings_seq()[j]).trigger != t,
            decreases self.bindings_seq().len() - i,
        {
            if self.bindings[i].trigger == t {
                return Some(i);
            }
            i += 1;
        }
        None
    }

    /// Registers every binding's trigger with the trigger source. Applied to
    /// the whole set atomically with respect to `deactivate_all`: afterwards
    /// every trigger of the set is registered, and nothing else changed.
    pub fn activate_all(&self, reg: &mut TriggerRegistry)
        ensures
            forall|t: Trigger|
                final(reg).is_bound(t) <==> (old(reg).is_bound(t) || self.has_trigger(t)),
    {
        let mut i: usize = 0;
        while i < self.bindings.len()
            invariant
                0 <= i <= self.bindings_seq().len(),
                forall|t: Trigger|
                    reg.is_bound(t) <==> (old(reg).is_bound(t) || exists|j: int|
                        0 <= j < i && (#[trigger] self.bindings_seq()[j]).trigger == t),
            decreases self.bindings_seq().len() - i,
        {
            reg.register(self.bindings[i].trigger);
            i += 1;
        }
    }

    /// Unregisters every binding's trigger from the trigger source. Applied
    /// to the whole set atomically with respect to `activate_all`: afterwards
    /// none of the set's triggers are registered; every other registration
    /// (the control trigger's) is kept.
    pub fn deactivate_all(&self, reg: &mut TriggerRegistry)
        ensures
            forall|t: Trigger|
                final(reg).is_bound(t) <==> (old(reg).is_bound(t) && !self.has_trigger(t)),
    {
        let mut kept: Vec<Trigger> = Vec::new();
        let mut i: usize = 0;
        while i < reg.bound.len()
            invariant
                0 <= i <= reg.bound@.len(),
                reg == old(reg),
                forall|t: Trigger| #[trigger]
                    kept@.contains(t) <==> (old(reg).bound@.take(i as int).contains(t)
                        && !self.has_trigger(t)),
            decreases reg.bound@.len() - i,
        {
            let t = reg.bound[i];
            proof {
                assert(old(reg).bound@.take(i + 1 as int) =~= old(reg).bound@.take(i as int).push(
                    old(reg).bound@[i as int],
                ));
            }
            if self.find_trigger(t).is_none() {
                kept.push(t);
            }
            i += 1;
        }
        proof {
            assert(old(reg).bound@.take(reg.bound@.len() as int) =~= old(reg).bound@);
        }
        reg.bound = kept;
    }
}

/// The default table: which key fires which command. Two keys may mean the
/// same command (synonym triggers); such duplicate names carry identical
/// frames, which `lemma_duplicate_names_same_frame` guarantees of every
/// valid set.
pub open spec fn spec_default_table() -> Seq<(Trigger, Seq<char>)> {
    seq![
        (Trigger::F1, "powerOff"@),
        (Trigger::F2, "powerOn"@),
        (Trigger::H, "home"@),
        (Trigger::N, "netflix"@),
        (Trigger::UpArrow, "up"@),
        (Trigger::W, "up"@),
        (Trigger::DownArrow, "down"@),
        (Trigger::S, "down"@),
        (Trigger::D, "right"@),
        (Trigger::RightArrow, "right"@),
        (Trigger::A, "left"@),
        (Trigger::LeftArrow, "left"@),
        (Trigger::Enter, "enter"@),
        (Trigger::Backspace, "return"@),
        (Trigger::Num1, "hdmi1"@),
        (Trigger::Num2, "hdmi2"@),
        (Trigger::Num3, "hdmi3"@),
        (Trigger::Num4, "hdmi4"@),
    ]
}

/// One entry of the default table, resolved against the Command Table.
fn make_binding(t: Trigger, name: &str) -> (r: Binding)
    requires
        is_known_command(name@),
    ensures
        r.wf(),
        r.trigger == t,
        r.name@ == name@,
{
    let frame = resolve(name).unwrap();
    Binding::new(t, String::from_str(name), frame)
}

/// Builds the fixed Binding Set of the default table.
pub fn default_bindings() -> (r: BindingSet)
    ensures
        r.wf(),
        r.bindings_seq().len() == spec_default_table().len(),
        forall|i: int|
            0 <= i < spec_default_table().len() ==> (#[trigger] r.bindings_seq()[i]).trigger
                == spec_default_table()[i].0 && r.bindings_seq()[i].name@
                == spec_default_table()[i].1,
{
    let mut v: Vec<Binding> = Vec::new();
    v.push(make_binding(Trigger::F1, "powerOff"));
    v.push(make_binding(Trigger::F2, "powerOn"));
    v.push(make_binding(Trigger::H, "home"));
    v.push(make_binding(Trigger::N, "netflix"));
    v.push(make_binding(Trigger::UpArrow, "up"));
    v.push(make_binding(Trigger::W, "up"));
    v.push(make_binding(Trigger::DownArrow, "down"));
    v.push(make_binding(Trigger::S, "down"));
    v.push(make_binding(Trigger::D, "right"));
    v.push(make_binding(Trigger::RightArrow, "right"));
    v.push(make_binding(Trigger::A, "left"));
    v.push(make_binding(Trigger::LeftArrow, "left"));
    v.push(make_binding(Trigger::Enter, "enter"));
    v.push(make_binding(Trigger::Backspace, "return"));
    v.push(make_binding(Trigger::Num1, "hdmi1"));
    v.push(make_binding(Trigger::Num2, "hdmi2"));
    v.push(make_binding(Trigger::Num3, "hdmi3"));
    v.push(make_binding(Trigger::Num4, "hdmi4"));
    BindingSet { bindings: v }
}

/// Duplicate command names are expected — two triggers may mean the same
/// command — and must carry byte-identical frames. In a valid set they always
/// do, because every binding stores exactly the table's frame for its name.
pub proof fn lemma_duplicate_names_same_frame(s: BindingSet, i: int, j: int)
    requires
        s.wf(),
        0 <= i < s.bindings_seq().len(),
        0 <= j < s.bindings_seq().len(),
        s.bindings_seq()[i].name@ == s.bindings_seq()[j].name@,
    ensures
        s.bindings_seq()[i].frame@ == s.bindings_seq()[j].frame@,
{
}

} // verus!
