//! Which keys are held down, polled once per tick.
use vstd::prelude::*;
use vstd::string::StringExecFns;

verus! {

/// The codes of the keys held down.
pub struct KeyState {
    pressed_keys: Vec<String>,
}

/// The codes that a list of held keys names.
pub open spec fn codes(keys: Seq<String>) -> Set<Seq<char>> {
    Set::new(|code: Seq<char>| exists|i: int| 0 <= i < keys.len() && #[trigger] keys[i]@ == code)
}

impl View for KeyState {
    type V = Set<Seq<char>>;

    closed spec fn view(&self) -> Set<Seq<char>> {
        codes(self.pressed_keys@)
    }
}

impl KeyState {
    pub fn new() -> (r: KeyState)
        ensures
            r@ == Set::<Seq<char>>::empty(),
    {
        let r = KeyState { pressed_keys: Vec::new() };
        assert(r@ =~= Set::<Seq<char>>::empty());
        r
    }

    pub fn is_pressed(&self, code: &str) -> (r: bool)
        ensures
            r == self@.contains(code@),
    {
        let wanted = String::from_str(code);
        let mut i: usize = 0;
        while i < self.pressed_keys.len()
            invariant
                i <= self.pressed_keys@.len(),
                wanted@ == code@,
                forall|j: int| 0 <= j < i ==> #[trigger] self.pressed_keys@[j]@ != code@,
            decreases self.pressed_keys@.len() - i,
        {
            if self.pressed_keys[i] == wanted {
                assert(self.pressed_keys@[i as int]@ == code@);
                return true;
            }
            i = i + 1;
        }
        false
    }

    pub fn set_pressed(&mut self, code: String)
        ensures
            final(self)@ == old(self)@.insert(code@),
    {
        let ghost added = code@;
        self.pressed_keys.push(code);
        assert(self.pressed_keys@.last()@ == added);
        assert(final(self)@ =~= old(self)@.insert(added)) by {
            assert forall|c: Seq<char>| #[trigger] self@.contains(c) == old(self)@.insert(added).contains(c) by {
                if old(self)@.contains(c) {
                    let i = choose|i: int| 0 <= i < old(self).pressed_keys@.len() && #[trigger] old(self).pressed_keys@[i]@ == c;
                    assert(self.pressed_keys@[i]@ == c);
                }
                if self@.contains(c) && c != added {
                    let i = choose|i: int| 0 <= i < self.pressed_keys@.len() && #[trigger] self.pressed_keys@[i]@ == c;
                    assert(old(self).pressed_keys@[i]@ == c);
                }
            }
        }
    }

    pub fn set_released(&mut self, code: &str)
        ensures
            final(self)@ == old(self)@.remove(code@),
    {
        let released = String::from_str(code);
        let mut rest: Vec<String> = Vec::new();
        std::mem::swap(&mut rest, &mut self.pressed_keys);
        let ghost all = rest@;
        let mut kept: Vec<String> = Vec::new();
        let mut i: usize = 0;
        while i < rest.len()
            invariant
                rest@ == all,
                i <= all.len(),
                forall|j: int| 0 <= j < kept@.len() ==> #[trigger] kept@[j]@ != released@,
                forall|j: int| 0 <= j < kept@.len() ==> exists|k: int| 0 <= k < i && all[k]@ == #[trigger] kept@[j]@,
                forall|k: int| 0 <= k < i && all[k]@ != released@ ==> exists|j: int| 0 <= j < kept@.len() && kept@[j]@ == #[trigger] all[k]@,
            decreases all.len() - i,
        {
            if rest[i] != released {
                let key = rest[i].clone();
                let ghost before = kept@;
                kept.push(key);
                assert(forall|j: int| 0 <= j < before.len() ==> kept@[j] == before[j]);
                assert(kept@[before.len() as int]@ == all[i as int]@);
            }
            i = i + 1;
        }
        self.pressed_keys = kept;
        assert(final(self)@ =~= old(self)@.remove(code@)) by {
            assert forall|c: Seq<char>| #[trigger] self@.contains(c) == old(self)@.remove(code@).contains(c) by {
                if self@.contains(c) {
                    let j = choose|j: int| 0 <= j < self.pressed_keys@.len() && #[trigger] self.pressed_keys@[j]@ == c;
                    let k = choose|k: int| 0 <= k < all.len() && all[k]@ == #[trigger] self.pressed_keys@[j]@;
                    assert(old(self).pressed_keys@[k]@ == c);
                }
                if old(self)@.contains(c) && c != code@ {
                    let k = choose|k: int| 0 <= k < old(self).pressed_keys@.len() && #[trigger] old(self).pressed_keys@[k]@ == c;
                    assert(all[k]@ == c);
                    let j = choose|j: int| 0 <= j < self.pressed_keys@.len() && self.pressed_keys@[j]@ == all[k]@;
                    assert(self.pressed_keys@[j]@ == c);
                }
            }
        }
    }
}

} // verus!
