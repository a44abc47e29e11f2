//! The count of living workers, and who can do what with it.
//!
//! The pool can look at the count ([`Gauge`]), and each worker can lower it by one,
//! once ([`Share`]). A count is opened with as many shares as it stands at
//! ([`Open`]). The pool and the workers are written for every count that can be used
//! so, and know nothing else of it: no code of theirs can change it in another way.
//!
//! The number itself is an atomic, which every function that holds it could change.
//! So no function of the library holds it as what it is. What holds a number
//! ([`Number`]) does not know of which kind it is, and is handed the one function
//! that it is to call on it. What knows the kind, and hands the function out, does
//! not hold a number. The function has to give, on every number and every argument,
//! exactly what that kind's own function gives: nothing but that function itself is
//! known to do so.
use std::sync::atomic::{AtomicUsize, Ordering};
use std::sync::Arc;
use vstd::prelude::*;

verus! {

/// What can look at a count, and not change it.
pub trait Gauge: Sized {
    /// A look at the count can find `alive`.
    spec fn reads(&self, alive: usize) -> bool;

    /// Looks at the count.
    fn look(&self) -> (alive: usize)
        ensures
            self.reads(alive),
    ;
}

/// What can lower a count by one, once.
pub trait Share: Sized {
    /// Lowering the count can find it at `before`.
    spec fn lowers(&self, before: usize) -> bool;

    /// Lowers the count, and tells what it stood at before.
    fn lower(self) -> (before: usize)
        ensures
            self.lowers(before),
    ;
}

/// A count that can be opened.
pub trait Open: Sized {
    /// What one of those that are counted gets of the count.
    type Part;

    /// The count was opened at `size`.
    spec fn opened(&self, size: usize) -> bool;

    /// `part` is a share of this count.
    spec fn shared(&self, part: Self::Part) -> bool;

    /// Opens a count at `size`, with one share for each of those it counts.
    fn open(size: usize) -> (opened: (Self, Vec<Self::Part>))
        ensures
            opened.0.opened(size),
            opened.1@.len() == size,
            forall|i: int| 0 <= i < size ==> opened.0.shared(#[trigger] opened.1@[i]),
    ;
}

/// A kind of number that tasks can share.
pub trait Number: Sized {
    /// Making a number of `size` can give `made`.
    spec fn makes(size: usize, made: Self) -> bool;

    /// Loading the number can find `found`.
    spec fn loads(&self, order: Ordering, found: usize) -> bool;

    /// Subtracting `by` from the number can find it at `found` before.
    spec fn subtracts(&self, by: usize, order: Ordering, found: usize) -> bool;
}

/// What holds a number and is to load it.
pub trait Reader<C: Number>: Sized {
    /// The number.
    spec fn number(&self) -> C;

    /// Loads the number by means of `load`.
    fn load_with<F: Fn(&C, Ordering) -> usize>(self, load: F) -> (found: usize)
        requires
            forall|number: &C, order: Ordering| #[trigger] call_requires(load, (number, order)),
            forall|number: &C, order: Ordering, found: usize| #[trigger]
                call_ensures(load, (number, order), found) <==> number.loads(order, found),
        ensures
            self.number().loads(Ordering::Acquire, found),
    ;
}

/// What holds a number and is to lower it.
pub trait Holder<C: Number>: Sized {
    /// The number.
    spec fn number(&self) -> C;

    /// Lowers the number by one by means of `subtract`.
    fn lower_with<F: FnOnce(&C, usize, Ordering) -> usize>(self, subtract: F) -> (before: usize)
        requires
            forall|number: &C, by: usize, order: Ordering| #[trigger]
                call_requires(subtract, (number, by, order)),
            forall|number: &C, by: usize, order: Ordering, found: usize| #[trigger]
                call_ensures(subtract, (number, by, order), found) <==> number.subtracts(
                    by,
                    order,
                    found,
                ),
        ensures
            self.number().subtracts(1, Ordering::Release, before),
    ;
}

/// What is to make a number, and to share it out.
pub trait Opener<C: Number>: Sized {
    /// What it makes of the number.
    type Opened;

    /// `opened` is what is to be made.
    spec fn fits(&self, opened: Self::Opened) -> bool;

    /// Makes the number by means of `make`.
    fn open_with<F: FnOnce(usize) -> C>(self, make: F) -> (opened: Self::Opened)
        requires
            forall|size: usize| #[trigger] call_requires(make, (size,)),
            forall|size: usize, made: C| #[trigger]
                call_ensures(make, (size,), made) <==> C::makes(size, made),
        ensures
            self.fits(opened),
    ;
}

/// A kind of number that can be loaded.
pub trait Readable: Number {
    /// Hands out the function that loads a number of this kind.
    fn read<R: Reader<Self>>(reader: R) -> (found: usize)
        ensures
            reader.number().loads(Ordering::Acquire, found),
    ;
}

/// A kind of number that can be lowered.
pub trait Lowerable: Number {
    /// Hands out the function that subtracts from a number of this kind.
    fn reduce<H: Holder<Self>>(holder: H) -> (before: usize)
        ensures
            holder.number().subtracts(1, Ordering::Release, before),
    ;
}

/// What holds a number of a kind that can be lowered.
pub trait Counted: Holder<Self::Held> {
    /// The kind of number.
    type Held: Lowerable;
}

/// A kind of number that can be made.
pub trait Makeable: Number {
    /// Hands out the function that makes a number of this kind.
    fn make<O: Opener<Self>>(opener: O) -> (opened: O::Opened)
        ensures
            opener.fits(opened),
    ;
}

/// The count of living workers may be read as `alive`.
pub open spec fn reads(count: AtomicUsize, alive: usize) -> bool {
    call_ensures(AtomicUsize::load, (&count, Ordering::Acquire), alive)
}

/// The count stood at `before` and was then lowered by one.
pub open spec fn lowers(count: AtomicUsize, before: usize) -> bool {
    call_ensures(AtomicUsize::fetch_sub, (&count, 1usize, Ordering::Release), before)
}

impl Number for AtomicUsize {
    open spec fn makes(size: usize, made: Self) -> bool {
        call_ensures(AtomicUsize::new, (size,), made)
    }

    open spec fn loads(&self, order: Ordering, found: usize) -> bool {
        call_ensures(AtomicUsize::load, (self, order), found)
    }

    open spec fn subtracts(&self, by: usize, order: Ordering, found: usize) -> bool {
        call_ensures(AtomicUsize::fetch_sub, (self, by, order), found)
    }
}

impl Readable for AtomicUsize {
    fn read<R: Reader<Self>>(reader: R) -> (found: usize) {
        reader.load_with(AtomicUsize::load)
    }
}

impl Lowerable for AtomicUsize {
    fn reduce<H: Holder<Self>>(holder: H) -> (before: usize) {
        holder.lower_with(AtomicUsize::fetch_sub)
    }
}

impl Makeable for AtomicUsize {
    fn make<O: Opener<Self>>(opener: O) -> (opened: O::Opened) {
        opener.open_with(AtomicUsize::new)
    }
}

/// A count on an atomic is read by loading it, lowered by subtracting one from it,
/// and opened by making it of the size asked for. Its shares are that atomic.
pub proof fn law_count_is_the_atomic(count: Arc<AtomicUsize>, number: usize, part: Arc<AtomicUsize>)
    ensures
        count.reads(number) <==> reads(*count, number),
        count.reads(number) <==> call_ensures(
            AtomicUsize::load,
            (&*count, Ordering::Acquire),
            number,
        ),
        count.lowers(number) <==> lowers(*count, number),
        count.lowers(number) <==> call_ensures(
            AtomicUsize::fetch_sub,
            (&*count, 1usize, Ordering::Release),
            number,
        ),
        count.opened(number) <==> call_ensures(AtomicUsize::new, (number,), *count),
        count.shared(part) <==> part == count,
{
}

/// A look at a number.
struct Glance<'a, C> {
    at: &'a C,
}

impl<'a, C: Number> Reader<C> for Glance<'a, C> {
    closed spec fn number(&self) -> C {
        *self.at
    }

    fn load_with<F: Fn(&C, Ordering) -> usize>(self, load: F) -> (found: usize) {
        load(self.at, Ordering::Acquire)
    }
}

impl<C: Readable> Gauge for Arc<C> {
    open spec fn reads(&self, alive: usize) -> bool {
        (**self).loads(Ordering::Acquire, alive)
    }

    fn look(&self) -> (alive: usize) {
        C::read(Glance { at: &**self })
    }
}

impl<C: Number> Holder<C> for Arc<C> {
    open spec fn number(&self) -> C {
        **self
    }

    fn lower_with<F: FnOnce(&C, usize, Ordering) -> usize>(self, subtract: F) -> (before: usize) {
        subtract(&*self, 1, Ordering::Release)
    }
}

impl<C: Lowerable> Counted for Arc<C> {
    type Held = C;
}

impl<H: Counted> Share for H {
    open spec fn lowers(&self, before: usize) -> bool {
        self.number().subtracts(1, Ordering::Release, before)
    }

    fn lower(self) -> (before: usize) {
        H::Held::reduce(self)
    }
}

/// A number to be opened at, and shared by as many.
struct Places {
    size: usize,
}

impl<C: Number> Opener<C> for Places {
    type Opened = (Arc<C>, Vec<Arc<C>>);

    closed spec fn fits(&self, opened: (Arc<C>, Vec<Arc<C>>)) -> bool {
        &&& C::makes(self.size, *opened.0)
        &&& opened.1@.len() == self.size
        &&& forall|i: int| 0 <= i < self.size ==> #[trigger] opened.1@[i] == opened.0
    }

    fn open_with<F: FnOnce(usize) -> C>(self, make: F) -> (opened: (Arc<C>, Vec<Arc<C>>)) {
        let size: usize = self.size;
        divide(make(size), size)
    }
}

impl<C: Makeable> Open for Arc<C> {
    type Part = Arc<C>;

    open spec fn opened(&self, size: usize) -> bool {
        C::makes(size, **self)
    }

    open spec fn shared(&self, part: Arc<C>) -> bool {
        part == *self
    }

    fn open(size: usize) -> (opened: (Self, Vec<Self::Part>)) {
        C::make(Places { size })
    }
}

/// Shares `whole` among `parts`, keeping one share besides.
fn divide<C>(whole: C, parts: usize) -> (divided: (Arc<C>, Vec<Arc<C>>))
    ensures
        *divided.0 == whole,
        divided.1@.len() == parts,
        forall|i: int| 0 <= i < parts ==> #[trigger] divided.1@[i] == divided.0,
{
    let kept = Arc::new(whole);
    let mut given: Vec<Arc<C>> = Vec::new();
    let mut made: usize = 0;
    while made < parts
        invariant
            made <= parts,
            given@.len() == made,
            forall|i: int| 0 <= i < made ==> #[trigger] given@[i] == kept,
        decreases parts - made,
    {
        given.push(Arc::clone(&kept));
        made = made + 1;
    }
    (kept, given)
}

} // verus!
