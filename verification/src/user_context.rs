//! Environment variables that are put in place for a while and taken back.
//!
//! The graphics and compositor libraries read how to connect from the
//! environment when they start. A [`UserContext`] names the variables to
//! set; applying it to an [`Environment`] gives an [`EnvGuard`], and
//! restoring the guard brings the environment back to what it was.

use vstd::prelude::*;

use crate::text::same_text;

verus! {

/// The variables of an environment: a value for each name that is set.
pub type Variables = Map<Seq<char>, Seq<char>>;

/// The variables that a list of settings stands for, a later setting of a
/// name replacing an earlier one.
pub open spec fn variables_of(settings: Seq<(String, String)>) -> Variables
    decreases settings.len(),
{
    if settings.len() == 0 {
        Map::empty()
    } else {
        variables_of(settings.drop_last()).insert(settings.last().0@, settings.last().1@)
    }
}

/// An environment: the variables that are set, and their values.
#[derive(Debug)]
pub struct Environment {
    settings: Vec<(String, String)>,
}

impl View for Environment {
    type V = Variables;

    closed spec fn view(&self) -> Variables {
        variables_of(self.settings@)
    }
}

/// The value of `name` in `variables`, if it is set.
pub open spec fn lookup(variables: Variables, name: Seq<char>) -> Option<Seq<char>> {
    if variables.contains_key(name) {
        Some(variables[name])
    } else {
        None
    }
}

/// A value that may be missing, as text.
pub open spec fn optional_text(value: Option<String>) -> Option<Seq<char>> {
    match value {
        Some(text) => Some(text@),
        None => None,
    }
}

/// A list of settings without those of `name` stands for the variables
/// without `name`.
proof fn lemma_without(settings: Seq<(String, String)>, kept: Seq<(String, String)>, name:
    Seq<char>, next: (String, String))
    requires
        variables_of(kept) == variables_of(settings).remove(name),
    ensures
        next.0@ == name ==> variables_of(kept) == variables_of(settings.push(next)).remove(name),
        next.0@ != name ==> variables_of(kept.push(next)) == variables_of(
            settings.push(next),
        ).remove(name),
{
    assert(settings.push(next).drop_last() =~= settings);
    assert(kept.push(next).drop_last() =~= kept);
    if next.0@ == name {
        assert(variables_of(settings).remove(name) =~= variables_of(settings.push(next)).remove(
            name,
        ));
    } else {
        assert(variables_of(kept.push(next)) =~= variables_of(settings.push(next)).remove(name));
    }
}

impl Environment {
    /// An environment in which nothing is set.
    pub fn new() -> (r: Self)
        ensures
            r@ == Map::<Seq<char>, Seq<char>>::empty(),
    {
        Environment { settings: Vec::new() }
    }

    /// The value of the variable `name`, if it is set.
    pub fn get(&self, name: &str) -> (r: Option<String>)
        ensures
            optional_text(r) == lookup(self@, name@),
    {
        let mut i: usize = self.settings.len();
        assert(self.settings@.take(i as int) =~= self.settings@);
        while i > 0
            invariant
                i <= self.settings.len(),
                lookup(self@, name@) == lookup(variables_of(self.settings@.take(i as int)), name@),
            decreases i,
        {
            let ghost upto = self.settings@.take(i as int);
            assert(upto.drop_last() =~= self.settings@.take(i - 1));
            i = i - 1;
            if same_text(self.settings[i].0.as_str(), name) {
                return Some(self.settings[i].1.clone());
            }
        }
        None
    }

    /// Takes the variable `name` out of the environment.
    pub fn remove(&mut self, name: &str)
        ensures
            final(self)@ == old(self)@.remove(name@),
    {
        let mut kept: Vec<(String, String)> = Vec::new();
        let mut i: usize = 0;
        assert(self.settings@.take(0) =~= Seq::empty());
        assert(variables_of(kept@) =~= variables_of(self.settings@.take(0)).remove(name@));
        while i < self.settings.len()
            invariant
                i <= self.settings.len(),
                variables_of(kept@) == variables_of(self.settings@.take(i as int)).remove(name@),
            decreases self.settings.len() - i,
        {
            proof {
                lemma_without(self.settings@.take(i as int), kept@, name@, self.settings@[i as int]);
                assert(self.settings@.take(i as int).push(self.settings@[i as int])
                    =~= self.settings@.take(i + 1));
            }
            if !same_text(self.settings[i].0.as_str(), name) {
                let setting = (self.settings[i].0.clone(), self.settings[i].1.clone());
                proof {
                    lemma_same_setting(kept@, self.settings@[i as int], setting);
                }
                kept.push(setting);
            }
            i = i + 1;
        }
        assert(self.settings@.take(i as int) =~= self.settings@);
        self.settings = kept;
    }

    /// Sets the variable `name` to `value`.
    pub fn set(&mut self, name: String, value: String)
        ensures
            final(self)@ == old(self)@.insert(name@, value@),
    {
        self.remove(name.as_str());
        let ghost without = self.settings@;
        self.settings.push((name, value));
        assert(self.settings@.drop_last() =~= without);
        assert(self@ =~= old(self)@.insert(name@, value@));
    }
}

/// Settings with the same text stand for the same variables.
proof fn lemma_same_setting(settings: Seq<(String, String)>, a: (String, String), b: (
    String,
    String,
))
    requires
        a.0@ == b.0@,
        a.1@ == b.1@,
    ensures
        variables_of(settings.push(a)) == variables_of(settings.push(b)),
{
    assert(settings.push(a).drop_last() =~= settings);
    assert(settings.push(b).drop_last() =~= settings);
}

/// The variables to put in place: names and values, in the order in which
/// they are set.
#[derive(Debug)]
pub struct UserContext {
    vars: Vec<(String, String)>,
}

/// A list of names and values, as text.
pub open spec fn settings_view(settings: Seq<(String, String)>) -> Seq<(Seq<char>, Seq<char>)> {
    settings.map_values(|s: (String, String)| (s.0@, s.1@))
}

impl View for UserContext {
    type V = Seq<(Seq<char>, Seq<char>)>;

    closed spec fn view(&self) -> Seq<(Seq<char>, Seq<char>)> {
        settings_view(self.vars@)
    }
}

/// What was set before a [`UserContext`] was applied: for each of its
/// settings, in order, the name and the value that was found there.
#[derive(Debug)]
pub struct EnvGuard {
    previous: Vec<(String, Option<String>)>,
}

impl View for EnvGuard {
    type V = Seq<(Seq<char>, Option<Seq<char>>)>;

    closed spec fn view(&self) -> Seq<(Seq<char>, Option<Seq<char>>)> {
        self.previous@.map_values(|p: (String, Option<String>)| (p.0@, optional_text(p.1)))
    }
}

/// The variables after each of `settings` was set, in order.
pub open spec fn applied(variables: Variables, settings: Seq<(Seq<char>, Seq<char>)>) -> Variables
    decreases settings.len(),
{
    if settings.len() == 0 {
        variables
    } else {
        applied(variables, settings.drop_last()).insert(settings.last().0, settings.last().1)
    }
}

/// What a guard records when `settings` are applied to `variables`: for each
/// setting the value that its name had just before it was set.
pub open spec fn recorded(variables: Variables, settings: Seq<(Seq<char>, Seq<char>)>) -> Seq<
    (Seq<char>, Option<Seq<char>>),
>
    decreases settings.len(),
{
    if settings.len() == 0 {
        Seq::empty()
    } else {
        recorded(variables, settings.drop_last()).push(
            (
                settings.last().0,
                lookup(applied(variables, settings.drop_last()), settings.last().0),
            ),
        )
    }
}

/// The variables after one recorded value was put back: the name has its
/// value again, or is unset if it was.
pub open spec fn put_back(variables: Variables, record: (Seq<char>, Option<Seq<char>>)) -> Variables {
    match record.1 {
        Some(value) => variables.insert(record.0, value),
        None => variables.remove(record.0),
    }
}

/// The variables after everything in `previous` was put back, the last
/// record first.
pub open spec fn restored(variables: Variables, previous: Seq<(Seq<char>, Option<Seq<char>>)>) -> Variables
    decreases previous.len(),
{
    if previous.len() == 0 {
        variables
    } else {
        restored(put_back(variables, previous.last()), previous.drop_last())
    }
}

/// Applying settings and then restoring what the guard recorded leaves every
/// variable as it was: the same names are set, to the same values.
pub proof fn lemma_apply_then_restore(variables: Variables, settings: Seq<(Seq<char>, Seq<char>)>)
    ensures
        restored(applied(variables, settings), recorded(variables, settings)) == variables,
    decreases settings.len(),
{
    if settings.len() > 0 {
        let earlier = settings.drop_last();
        let before = applied(variables, earlier);
        let record = (settings.last().0, lookup(before, settings.last().0));
        assert(recorded(variables, settings).drop_last() =~= recorded(variables, earlier));
        assert(recorded(variables, settings).last() == record);
        assert(put_back(applied(variables, settings), record) =~= before);
        lemma_apply_then_restore(variables, earlier);
    }
}

impl UserContext {
    /// A context that sets the given names to the given values, in order.
    pub fn new(vars: Vec<(String, String)>) -> (r: Self)
        ensures
            r@ == settings_view(vars@),
    {
        UserContext { vars }
    }

    /// How many variables the context sets.
    pub fn len(&self) -> (r: usize)
        ensures
            r == self@.len(),
    {
        self.vars.len()
    }

    /// The name of the `i`-th variable the context sets.
    pub fn name(&self, i: usize) -> (r: &str)
        requires
            i < self@.len(),
        ensures
            r@ == self@[i as int].0,
    {
        self.vars[i].0.as_str()
    }

    /// Sets the variables of this context in `environment`, one after the
    /// other, and returns the guard that can undo it.
    pub fn apply(&self, environment: &mut Environment) -> (guard: EnvGuard)
        ensures
            final(environment)@ == applied(old(environment)@, self@),
            guard@ == recorded(old(environment)@, self@),
    {
        let ghost start = environment@;
        let mut previous: Vec<(String, Option<String>)> = Vec::new();
        let mut i: usize = 0;
        assert(self@.take(0) =~= Seq::empty());
        assert(previous@.map_values(|p: (String, Option<String>)| (p.0@, optional_text(p.1)))
            =~= recorded(start, self@.take(0)));
        while i < self.vars.len()
            invariant
                i <= self.vars.len(),
                self@.len() == self.vars.len(),
                environment@ == applied(start, self@.take(i as int)),
                previous@.map_values(|p: (String, Option<String>)| (p.0@, optional_text(p.1)))
                    == recorded(start, self@.take(i as int)),
            decreases self.vars.len() - i,
        {
            let ghost done = previous@.map_values(
                |p: (String, Option<String>)| (p.0@, optional_text(p.1)),
            );
            let name = self.vars[i].0.clone();
            let value = self.vars[i].1.clone();
            let current = environment.get(name.as_str());
            proof {
                assert(self@.take(i + 1).drop_last() =~= self@.take(i as int));
                assert(self@.take(i + 1).last() == (name@, value@));
            }
            previous.push((name.clone(), current));
            environment.set(name, value);
            i = i + 1;
            assert(previous@.map_values(|p: (String, Option<String>)| (p.0@, optional_text(p.1)))
                =~= done.push((name@, optional_text(current))));
        }
        assert(self@.take(i as int) =~= self@);
        EnvGuard { previous }
    }
}

impl EnvGuard {
    /// Puts back what was recorded, the last record first: a name that was
    /// set gets its value again, a name that was not set is taken out.
    pub fn restore(self, environment: &mut Environment)
        ensures
            final(environment)@ == restored(old(environment)@, self@),
    {
        let mut i: usize = self.previous.len();
        assert(self@.take(i as int) =~= self@);
        while i > 0
            invariant
                i <= self.previous.len(),
                self@.len() == self.previous.len(),
                restored(old(environment)@, self@) == restored(environment@, self@.take(i as int)),
            decreases i,
        {
            let ghost upto = self@.take(i as int);
            assert(upto.drop_last() =~= self@.take(i - 1));
            i = i - 1;
            assert(upto.last() == (self.previous@[i as int].0@, optional_text(self.previous@[i as int].1)));
            match &self.previous[i].1 {
                Some(value) => {
                    environment.set(self.previous[i].0.clone(), value.clone());
                },
                None => {
                    environment.remove(self.previous[i].0.as_str());
                },
            }
        }
    }
}

} // verus!
