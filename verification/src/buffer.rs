//! Message buffers of two allocators, and the one way each is let go.
//!
//! A buffer's memory belongs either to the host allocator or to the
//! middleware. Values of the host are held here and dropped here. Memory of
//! the middleware is only recorded here, by its address: the record decides
//! what has to be done to release it, and whoever makes the native calls
//! carries that decision out.

use vstd::prelude::*;
use crate::DdsEntity;
use crate::DDS_FREE_ALL_BIT;

verus! {

/// The authority that allocated a buffer's memory.
#[derive(Clone, Copy, Debug, PartialEq, Eq, Structural)]
pub enum Allocator {
    /// The host program's own allocator.
    Host,
    /// The middleware's allocator.
    Library,
}

/// Where the memory of a buffer came from, with what is needed to give it
/// back.
#[derive(Clone, Copy, Debug, PartialEq, Eq, Structural)]
pub enum Backing {
    /// Allocated by the host.
    Host,
    /// One sample that the middleware allocated, at `address`.
    Sample { address: usize },
    /// A run of `count` samples at `address` that `entity` lent out.
    Loan { address: usize, entity: DdsEntity, count: u32 },
}

/// How a buffer's memory is let go.
#[derive(Clone, Copy, Debug, PartialEq, Eq, Structural)]
pub enum Release {
    /// By the host allocator: the values are dropped where they are held,
    /// and no native call is made.
    HostFree,
    /// By the native sample-free on `address`, with the message type's
    /// descriptor and `flags`.
    FreeSample { address: usize, flags: u32 },
    /// By the native return-loan on `entity`, with `address` and `count`.
    ReturnLoan { entity: DdsEntity, address: usize, count: u32 },
}

/// A buffer as contracts see it: where its memory came from, the values it
/// holds for the host, and whether it has been released.
pub struct BufferModel<T> {
    pub backing: Backing,
    pub values: Seq<T>,
    pub released: bool,
}

impl<T> BufferModel<T> {
    /// The authority that the backing belongs to.
    pub open spec fn allocator(self) -> Allocator {
        match self.backing {
            Backing::Host => Allocator::Host,
            _ => Allocator::Library,
        }
    }

    /// How many samples a borrow of the buffer reaches: those it was made
    /// with while it is live, none once it has been released.
    pub open spec fn len(self) -> nat {
        if self.released {
            0
        } else {
            match self.backing {
                Backing::Host => self.values.len(),
                Backing::Sample { address } => 1,
                Backing::Loan { address, entity, count } => count as nat,
            }
        }
    }

    /// How the memory is let go, whether or not that has been done.
    pub open spec fn release_path(self) -> Release {
        match self.backing {
            Backing::Host => Release::HostFree,
            Backing::Sample { address } => Release::FreeSample { address, flags: DDS_FREE_ALL_BIT },
            Backing::Loan { address, entity, count } => Release::ReturnLoan {
                entity,
                address,
                count,
            },
        }
    }

    /// The buffer after a call of release: nothing is held, and it is
    /// marked as released.
    pub open spec fn after_release(self) -> BufferModel<T> {
        BufferModel { backing: self.backing, values: Seq::empty(), released: true }
    }

    /// What a call of release reports: the buffer's path while it is live,
    /// nothing once it has been released.
    pub open spec fn release_step(self) -> Option<Release> {
        if self.released {
            None
        } else {
            Some(self.release_path())
        }
    }

    /// How many of `calls` calls of release in a row report a path.
    pub open spec fn releases_asked(self, calls: nat) -> nat
        decreases calls,
    {
        if calls == 0 {
            0
        } else {
            let asked: nat = if self.release_step().is_some() {
                1
            } else {
                0
            };
            asked + self.after_release().releases_asked((calls - 1) as nat)
        }
    }
}

/// One message buffer: values that the host allocated, or the record of
/// memory that the middleware allocated.
#[derive(Debug)]
pub struct OwnedBuffer<T> {
    backing: Backing,
    values: Vec<T>,
    released: bool,
}

impl<T> View for OwnedBuffer<T> {
    type V = BufferModel<T>;

    closed spec fn view(&self) -> BufferModel<T> {
        BufferModel { backing: self.backing, values: self.values@, released: self.released }
    }
}

impl<T> OwnedBuffer<T> {
    /// Memory of the middleware is never recorded at the null address, only
    /// a buffer of the host holds values, and a released buffer holds none.
    #[verifier::type_invariant]
    spec fn well_formed(self) -> bool {
        &&& match self.backing {
            Backing::Host => true,
            Backing::Sample { address } => address != 0 && self.values@.len() == 0,
            Backing::Loan { address, entity, count } => address != 0 && self.values@.len() == 0,
        }
        &&& self.released ==> self.values@.len() == 0
    }

    /// Takes a value that the host allocated.
    pub fn from_host(value: T) -> (buffer: OwnedBuffer<T>)
        ensures
            buffer@ == (BufferModel { backing: Backing::Host, values: seq![value], released: false }),
    {
        let mut values: Vec<T> = Vec::new();
        values.push(value);
        assert(values@ =~= seq![value]);
        OwnedBuffer { backing: Backing::Host, values, released: false }
    }

    /// Records one sample that the middleware allocated at `address`.
    pub fn from_sample(address: usize) -> (buffer: OwnedBuffer<T>)
        requires
            address != 0,
        ensures
            buffer@ == (BufferModel::<T> {
                backing: Backing::Sample { address },
                values: Seq::empty(),
                released: false,
            }),
    {
        OwnedBuffer { backing: Backing::Sample { address }, values: Vec::new(), released: false }
    }

    /// Records `count` samples at `address` that `entity` lent out.
    pub fn from_loan(address: usize, entity: DdsEntity, count: u32) -> (buffer: OwnedBuffer<T>)
        requires
            address != 0,
        ensures
            buffer@ == (BufferModel::<T> {
                backing: Backing::Loan { address, entity, count },
                values: Seq::empty(),
                released: false,
            }),
    {
        OwnedBuffer {
            backing: Backing::Loan { address, entity, count },
            values: Vec::new(),
            released: false,
        }
    }

    /// The authority whose memory this is.
    pub fn allocator(&self) -> (tag: Allocator)
        ensures
            tag == self@.allocator(),
    {
        match self.backing {
            Backing::Host => Allocator::Host,
            _ => Allocator::Library,
        }
    }

    /// Where the memory came from. An address of the middleware is never
    /// null.
    pub fn backing(&self) -> (backing: Backing)
        ensures
            backing == self@.backing,
            backing matches Backing::Sample { address } ==> address != 0,
            backing matches Backing::Loan { address, entity, count } ==> address != 0,
    {
        proof {
            use_type_invariant(self);
        }
        self.backing
    }

    /// How many samples a borrow of the buffer reaches.
    pub fn len(&self) -> (len: usize)
        ensures
            len == self@.len(),
    {
        proof {
            use_type_invariant(self);
        }
        if self.released {
            0
        } else {
            match self.backing {
                Backing::Host => self.values.len(),
                Backing::Sample { address } => 1,
                Backing::Loan { address, entity, count } => count as usize,
            }
        }
    }

    /// The values of a live buffer of the host. Memory of the middleware is
    /// not held here: for it, and after release, there is nothing to lend.
    pub fn borrow(&self) -> (values: Option<&[T]>)
        ensures
            self@.allocator() == Allocator::Host && !self@.released ==> (values matches Some(lent)
                && lent@ == self@.values && lent@.len() == self@.len()),
            self@.allocator() == Allocator::Library || self@.released ==> values.is_none(),
    {
        if self.released {
            None
        } else {
            match self.backing {
                Backing::Host => Some(self.values.as_slice()),
                _ => None,
            }
        }
    }

    /// Whether the buffer has been released.
    pub fn is_released(&self) -> (released: bool)
        ensures
            released == self@.released,
    {
        self.released
    }

    /// Lets the buffer go. The first call drops what the host allocated and
    /// returns the path by which the memory goes; every later call changes
    /// nothing and returns `None`.
    pub fn release(&mut self) -> (path: Option<Release>)
        ensures
            path == old(self)@.release_step(),
            final(self)@ == old(self)@.after_release(),
            path matches Some(Release::FreeSample { address, flags }) ==> address != 0,
            path matches Some(Release::ReturnLoan { entity, address, count }) ==> address != 0,
    {
        proof {
            use_type_invariant(&*self);
        }
        if self.released {
            assert(self.values@ =~= Seq::<T>::empty());
            return None;
        }
        self.values = Vec::new();
        self.released = true;
        let path = match self.backing {
            Backing::Host => Release::HostFree,
            Backing::Sample { address } => Release::FreeSample { address, flags: DDS_FREE_ALL_BIT },
            Backing::Loan { address, entity, count } => Release::ReturnLoan {
                entity,
                address,
                count,
            },
        };
        Some(path)
    }
}

/// However often release is called on a live buffer, it reports a path
/// exactly once: on the first call, and it is the buffer's own.
pub proof fn lemma_released_exactly_once<T>(buffer: BufferModel<T>, calls: nat)
    requires
        !buffer.released,
        calls >= 1,
    ensures
        buffer.releases_asked(calls) == 1,
        buffer.release_step() == Some(buffer.release_path()),
        buffer.after_release().release_step().is_none(),
{
    lemma_released_asks_nothing(buffer.after_release(), (calls - 1) as nat);
}

/// A buffer that has been released reports nothing more, however often
/// release is called.
pub proof fn lemma_released_asks_nothing<T>(buffer: BufferModel<T>, calls: nat)
    requires
        buffer.released,
    ensures
        buffer.releases_asked(calls) == 0,
    decreases calls,
{
    if calls > 0 {
        lemma_released_asks_nothing(buffer.after_release(), (calls - 1) as nat);
    }
}

/// How many paths are reported in all when release is called `calls` times
/// on each of `buffers`.
pub open spec fn total_releases_asked<T>(buffers: Seq<BufferModel<T>>, calls: nat) -> nat
    decreases buffers.len(),
{
    if buffers.len() == 0 {
        0
    } else {
        total_releases_asked(buffers.drop_last(), calls) + buffers.last().releases_asked(calls)
    }
}

/// Live buffers that are all released, each at least once, report as many
/// paths as there are buffers: one each, none left out and none twice.
pub proof fn lemma_each_released_once<T>(buffers: Seq<BufferModel<T>>, calls: nat)
    requires
        forall|i: int| 0 <= i < buffers.len() ==> !(#[trigger] buffers[i]).released,
        calls >= 1,
    ensures
        total_releases_asked(buffers, calls) == buffers.len(),
    decreases buffers.len(),
{
    if buffers.len() > 0 {
        lemma_each_released_once(buffers.drop_last(), calls);
        lemma_released_exactly_once(buffers.last(), calls);
    }
}

/// The path of release follows the allocator: memory of the host goes by
/// the host allocator and by nothing else, memory of the middleware goes
/// back to the middleware, with the address, entity and count it was
/// recorded with.
pub proof fn lemma_release_follows_allocator<T>(buffer: BufferModel<T>)
    ensures
        buffer.allocator() == Allocator::Host <==> buffer.release_path() == Release::HostFree,
        buffer.allocator() == Allocator::Library <==> buffer.release_path() != Release::HostFree,
        buffer.backing matches Backing::Sample { address } ==> buffer.release_path() == (
        Release::FreeSample { address, flags: DDS_FREE_ALL_BIT }),
        buffer.backing matches Backing::Loan { address, entity, count } ==> buffer.release_path()
            == (Release::ReturnLoan { entity, address, count }),
{
}

} // verus!
