use vstd::prelude::*;

use crate::geom::Size;

verus! {

/// A physical keyboard key, as the windowing collaborator reports it.
#[derive(Clone, Copy, PartialEq, Eq, Structural, Debug)]
pub enum Key {
    Up,
    Down,
    Left,
    Right,
    W,
    A,
    S,
    D,
    Space,
    Escape,
    Unknown,
}

/// A physical input source: a keyboard key, or anything else (mouse buttons,
/// controller buttons, ...) that the shell does not bind actions to.
#[derive(Clone, Copy, PartialEq, Eq, Structural, Debug)]
pub enum Button {
    Keyboard(Key),
    Other,
}

/// A raw input event from the windowing collaborator: a press edge, a release
/// edge, or any other input (motion, text, resize, ...).
#[derive(Clone, Copy, PartialEq, Eq, Structural, Debug)]
pub enum Input {
    Press(Button),
    Release(Button),
    Other,
}

/// The result of translating a raw input event into a semantic action: a
/// press or release of an action the translator has a mapping for, or `Other`
/// when the event carries no mapped button.
#[derive(Clone, Copy, PartialEq, Eq, Structural, Debug)]
pub enum TranslatedEvent<A> {
    Press(A),
    Release(A),
    Other,
}

/// The action bound to `b` by `table`, searching from the most recently
/// registered pair backwards, so that of two mappings for the same button the
/// last one registered wins.
pub open spec fn lookup_action<A>(table: Seq<(Button, A)>, b: Button) -> Option<A>
    decreases table.len(),
{
    if table.len() == 0 {
        None
    } else if table.last().0 == b {
        Some(table.last().1)
    } else {
        lookup_action(table.drop_last(), b)
    }
}

/// What a translator with mapping table `table` makes of the raw event `i`.
pub open spec fn translate_spec<A>(table: Seq<(Button, A)>, i: Input) -> TranslatedEvent<A> {
    match i {
        Input::Press(b) => match lookup_action(table, b) {
            Some(a) => TranslatedEvent::Press(a),
            None => TranslatedEvent::Other,
        },
        Input::Release(b) => match lookup_action(table, b) {
            Some(a) => TranslatedEvent::Release(a),
            None => TranslatedEvent::Other,
        },
        Input::Other => TranslatedEvent::Other,
    }
}

/// Maps raw input events to semantic actions through a table of
/// (button, action) pairs registered at construction. Many buttons may map to
/// the same action; of two mappings for one button, the last registered wins.
/// The table is immutable for the owning screen's lifetime.
pub struct InputTranslator<A> {
    pub table: Vec<(Button, A)>,
}

impl<A: Copy> InputTranslator<A> {
    /// The action bound to `b`, if any; the mapping registered last wins.
    pub fn lookup(&self, b: Button) -> (r: Option<A>)
        ensures
            r == lookup_action(self.table@, b),
    {
        let mut i: usize = self.table.len();
        proof {
            assert(self.table@.take(i as int) =~= self.table@);
        }
        while i > 0
            invariant
                i <= self.table.len(),
                lookup_action(self.table@, b) == lookup_action(self.table@.take(i as int), b),
            decreases i,
        {
            i = i - 1;
            let (bb, aa) = self.table[i];
            if bb == b {
                proof {
                    assert(self.table@.take(i as int + 1).last() == self.table@[i as int]);
                }
                return Some(aa);
            }
            proof {
                assert(self.table@.take(i as int + 1).last() == self.table@[i as int]);
                assert(self.table@.take(i as int + 1).drop_last() =~= self.table@.take(i as int));
            }
        }
        None
    }

    /// Translates one raw event: a press or release of a mapped button becomes
    /// the corresponding action edge; everything else is `Other`.
    pub fn translate(&self, i: &Input) -> (t: TranslatedEvent<A>)
        ensures
            t == translate_spec(self.table@, *i),
    {
        match i {
            Input::Press(b) => match self.lookup(*b) {
                Some(a) => TranslatedEvent::Press(a),
                None => TranslatedEvent::Other,
            },
            Input::Release(b) => match self.lookup(*b) {
                Some(a) => TranslatedEvent::Release(a),
                None => TranslatedEvent::Other,
            },
            Input::Other => TranslatedEvent::Other,
        }
    }
}

/// Registers (button, action) mappings one at a time and then freezes them
/// into an [`InputTranslator`]. Registration order matters only where two
/// mappings name the same button: the later registration wins.
pub struct TranslatorBuilder<A> {
    pub table: Vec<(Button, A)>,
}

impl<A: Copy> TranslatorBuilder<A> {
    /// An empty builder. The window's draw size is taken for interface parity
    /// with pointer-based translators; key translation does not consult it.
    pub fn new(_size: Size) -> (b: TranslatorBuilder<A>)
        ensures
            b.table@ == Seq::<(Button, A)>::empty(),
    {
        TranslatorBuilder { table: Vec::new() }
    }

    /// Appends one (button, action) mapping.
    pub fn with_action_mapping(self, b: Button, a: A) -> (r: TranslatorBuilder<A>)
        ensures
            r.table@ == self.table@.push((b, a)),
    {
        let mut table = self.table;
        table.push((b, a));
        TranslatorBuilder { table }
    }

    /// Freezes the registered mappings into a translator.
    pub fn build(self) -> (t: InputTranslator<A>)
        ensures
            t.table@ == self.table@,
    {
        InputTranslator { table: self.table }
    }
}

} // verus!
