//! The bipartite buffer core: three region descriptors over a flat array
//! of element slots, and the reserve / commit / decommit algebra on them.

use vstd::prelude::*;
use core::marker::PhantomData;

verus! {

/// Why a construction attempt failed.  Detected only by `new`; operations on
/// a constructed buffer never fail with one of these.
#[derive(Clone, Copy, Debug, PartialEq, Eq, Structural)]
pub enum Error {
    /// The storage allocator could not supply the requested backing storage.
    OutOfMemory,
    /// `capacity * size_of::<T>()` exceeds the addressable size type.
    CapacityOverflow,
    /// The element type has zero size, which is structurally disallowed.
    ZeroSizeElement,
}

/// The primary window `A`: a start offset and a length.  The same shape
/// describes the outstanding reservation.
pub struct A {
    /// Starting element of the region.
    pub index: usize,
    /// Number of elements in the region.
    pub count: usize,
}

/// The secondary window `B`: it always starts at offset 0, so only a length
/// and an active flag are kept.
pub struct B {
    /// Number of elements in the region.
    pub count: usize,
    /// True when the `B` region is in use.
    pub in_use: bool,
}

/// A fixed-capacity bipartite buffer over elements of type `T`.
///
/// The buffer owns no element storage itself: the raw backing array is an
/// external collaborator, supplied and released by the surrounding layer.
/// Every window handed out is an `(offset, length)` pair into that array,
/// and the core guarantees that the windows of distinct live regions never
/// overlap.
pub struct BipBuffer<T> {
    /// The primary (oldest, readable) committed region.
    pub a: A,
    /// The secondary committed region, starting at offset 0.
    pub b: B,
    /// The single outstanding, not-yet-committed write window.
    pub rsvp: A,
    /// Element capacity of the backing array.
    pub size: usize,
    /// The buffer is parameterized by its element type, though it never
    /// holds element values itself.
    pub elems: PhantomData<T>,
}

impl<T> BipBuffer<T> {
    /// Offset one past the last element of `A`.
    pub open spec fn a_end(self) -> int {
        self.a.index + self.a.count
    }

    /// Well-formedness of the region descriptors.  This is the inductive
    /// invariant of the buffer; every public operation preserves it.
    ///
    /// It comprises the documented region invariants: `A` lies within the
    /// array; `B` never reaches into `A`'s start and is flagged in use
    /// exactly when it is nonempty; `B` exists only beside a nonempty `A`;
    /// the empty buffer has `A.index == 0`; and the outstanding reservation
    /// lies within the array and overlaps neither `A` nor `B`.
    pub open spec fn wf(self) -> bool {
        &&& self.a.index + self.a.count <= self.size
        &&& self.b.count <= self.a.index
        &&& (self.b.in_use <==> self.b.count > 0)
        &&& (self.b.count > 0 ==> self.a.count > 0)
        &&& (self.a.count == 0 ==> self.a.index == 0)
        &&& self.rsvp.index + self.rsvp.count <= self.size
        &&& (self.rsvp.count > 0 ==> self.b.count <= self.rsvp.index)
        &&& (self.rsvp.count > 0 && self.a.count > 0 ==> {
            ||| self.rsvp.index + self.rsvp.count <= self.a.index
            ||| self.rsvp.index == self.a_end()
        })
        &&& (self.b.in_use && self.rsvp.count > 0 ==> self.rsvp.index == self.b.count)
    }

    /// Number of live (committed) elements: the lengths of `A` and `B`.
    pub open spec fn used_els(self) -> int {
        self.a.count + self.b.count
    }

    /// Free capacity available to future reservations: the gap between the
    /// end of `B` and the start of `A` while `B` is active, otherwise
    /// everything outside `A`.
    pub open spec fn unused_els(self) -> int {
        if self.b.in_use {
            self.a.index - self.b.count
        } else {
            self.size - self.a.count
        }
    }

    /// The largest free stretch a new reservation may be drawn from: the
    /// gap between `B` and `A` while `B` is active, otherwise the larger of
    /// the stretches after and before `A`.
    pub open spec fn free_els(self) -> int {
        if self.b.in_use {
            self.a.index - self.b.count
        } else {
            let after = self.size - self.a.index - self.a.count;
            let before = self.a.index as int;
            if after >= before {
                after
            } else {
                before
            }
        }
    }

    /// The `(offset, length)` window that `reserve(req)` grants, or `None`
    /// when no free stretch is available.
    pub open spec fn reserve_grant(self, req: usize) -> Option<(usize, usize)> {
        if self.free_els() == 0 {
            None
        } else {
            let len = if req <= self.free_els() {
                req as int
            } else {
                self.free_els()
            };
            let off = if self.b.in_use {
                self.b.count as int
            } else if self.size - self.a.index - self.a.count >= self.a.index {
                self.a_end()
            } else {
                0
            };
            Some(((off as usize), (len as usize)))
        }
    }

    /// The state after `reserve(req)`: on success the reservation holds the
    /// granted window, on failure nothing changes.
    pub open spec fn after_reserve(self, req: usize) -> Self {
        match self.reserve_grant(req) {
            None => self,
            Some((off, len)) => Self { rsvp: A { index: off, count: len }, ..self },
        }
    }

    /// How many elements `commit(n)` folds in: `n` clipped to the
    /// outstanding reservation's length.
    pub open spec fn commit_len(self, n: usize) -> int {
        if n <= self.rsvp.count {
            n as int
        } else {
            self.rsvp.count as int
        }
    }

    /// The state after `commit(n)`.  Committing nothing cancels the
    /// reservation; otherwise the clipped count lands in `A` when the
    /// buffer was empty or the reservation sits at `A`'s end, and in `B`
    /// otherwise.  The reservation is cleared in every branch.
    pub open spec fn after_commit(self, n: usize) -> Self {
        let cleared = A { index: 0, count: 0 };
        let c = self.commit_len(n);
        if c == 0 {
            Self { rsvp: cleared, ..self }
        } else if self.a.count == 0 && self.b.count == 0 {
            Self { a: A { index: self.rsvp.index, count: c as usize }, rsvp: cleared, ..self }
        } else if self.rsvp.index == self.a_end() {
            Self {
                a: A { index: self.a.index, count: (self.a.count + c) as usize },
                rsvp: cleared,
                ..self
            }
        } else {
            Self {
                b: B { count: (self.b.count + c) as usize, in_use: true },
                rsvp: cleared,
                ..self
            }
        }
    }

    /// The state after `decommit_block(n)`: `A` shrinks from the front;
    /// once it is fully retired, `B` is promoted into the `A` slot and
    /// deactivated.
    pub open spec fn after_decommit(self, n: usize) -> Self {
        if n >= self.a.count {
            Self {
                a: A { index: 0, count: self.b.count },
                b: B { count: 0, in_use: false },
                ..self
            }
        } else {
            Self {
                a: A { index: (self.a.index + n) as usize, count: (self.a.count - n) as usize },
                ..self
            }
        }
    }

    /// Creates a buffer with capacity for `cap` elements of `T`.
    ///
    /// Fails with `ZeroSizeElement` when `T` has zero size, and with
    /// `CapacityOverflow` when `cap * size_of::<T>()` does not fit in
    /// `usize`.  The raw storage allocation itself is the surrounding
    /// layer's task; a failure there is its `OutOfMemory`, never reported
    /// from here.  On success every region starts empty.
    pub fn new(cap: usize) -> (r: Result<Self, Error>)
        ensures
            (r is Ok) <==> (vstd::layout::size_of::<T>() > 0
                && cap * vstd::layout::size_of::<T>() <= usize::MAX),
            (r == Err::<Self, Error>(Error::ZeroSizeElement))
                <==> (vstd::layout::size_of::<T>() == 0),
            (r == Err::<Self, Error>(Error::CapacityOverflow))
                <==> (vstd::layout::size_of::<T>() > 0
                    && cap * vstd::layout::size_of::<T>() > usize::MAX),
            r matches Ok(buf) ==> {
                &&& buf.wf()
                &&& buf.size == cap
                &&& buf.a.index == 0 && buf.a.count == 0
                &&& buf.b.count == 0 && !buf.b.in_use
                &&& buf.rsvp.index == 0 && buf.rsvp.count == 0
                &&& buf.used_els() == 0
                &&& buf.unused_els() == cap
            },
    {
        let elem_size = core::mem::size_of::<T>();
        if elem_size == 0 {
            return Err(Error::ZeroSizeElement);
        }
        match cap.checked_mul(elem_size) {
            None => Err(Error::CapacityOverflow),
            Some(_) => Ok(
                BipBuffer {
                    a: A { index: 0, count: 0 },
                    b: B { count: 0, in_use: false },
                    rsvp: A { index: 0, count: 0 },
                    size: cap,
                    elems: PhantomData,
                },
            ),
        }
    }

    /// Resets the buffer to its empty state.  The backing storage is
    /// neither freed nor touched.
    pub fn clear(&mut self)
        ensures
            final(self).wf(),
            final(self).size == old(self).size,
            final(self).a.index == 0 && final(self).a.count == 0,
            final(self).b.count == 0 && !final(self).b.in_use,
            final(self).rsvp.index == 0 && final(self).rsvp.count == 0,
    {
        self.a.index = 0;
        self.a.count = 0;
        self.b.count = 0;
        self.b.in_use = false;
        self.rsvp.index = 0;
        self.rsvp.count = 0;
    }

    /// Returns the size of the buffer value itself in bytes.
    pub fn size_of(&self) -> (r: usize)
        ensures
            r as nat == vstd::layout::spec_size_of_val::<Self>(self),
    {
        core::mem::size_of_val(self)
    }

    /// Returns the element capacity of the buffer.
    pub fn size(&self) -> (r: usize)
        ensures
            r == self.size,
    {
        self.size
    }

    /// Returns the number of committed elements in the buffer.
    pub fn used(&self) -> (r: usize)
        requires
            self.wf(),
        ensures
            r == self.used_els(),
    {
        self.a.count + self.b.count
    }

    /// Returns the number of elements free for future reservations.
    pub fn unused(&self) -> (r: usize)
        requires
            self.wf(),
        ensures
            r == self.unused_els(),
    {
        if self.b.in_use {
            self.a.index - self.b.count
        } else {
            self.size - self.a.count
        }
    }

    /// Returns the `(offset, length)` window of the first contiguous block
    /// of committed elements — always the oldest unread data — or `None`
    /// when the buffer holds none.
    pub fn get_block(&self) -> (r: Option<(usize, usize)>)
        ensures
            r == (if self.a.count == 0 {
                None::<(usize, usize)>
            } else {
                Some((self.a.index, self.a.count))
            }),
    {
        if self.a.count == 0 {
            return None;
        }
        Some((self.a.index, self.a.count))
    }

    /// Requests a contiguous writable window of up to `req_cap` elements.
    ///
    /// Returns the granted `(offset, length)` window, or `None` exactly
    /// when no free stretch is left.  Any previously granted, uncommitted
    /// reservation is discarded by a successful grant.  The grant never
    /// exceeds the request nor the free stretch it is drawn from, and it
    /// overlaps neither `A` nor `B`.
    pub fn reserve(&mut self, req_cap: usize) -> (r: Option<(usize, usize)>)
        requires
            old(self).wf(),
        ensures
            final(self).wf(),
            *final(self) == old(self).after_reserve(req_cap),
            r == old(self).reserve_grant(req_cap),
            (r is Some) <==> old(self).free_els() > 0,
            final(self).a == old(self).a,
            final(self).b == old(self).b,
            final(self).size == old(self).size,
            r matches Some((off, len)) ==> {
                &&& len <= req_cap
                &&& len <= old(self).free_els()
                &&& off + len <= old(self).size
                &&& final(self).rsvp.index == off && final(self).rsvp.count == len
                &&& (old(self).a.count > 0 ==> off + len <= old(self).a.index
                    || off >= old(self).a_end())
                &&& off >= old(self).b.count
            },
            r is None ==> *final(self) == *old(self),
    {
        if self.b.in_use {
            // The only legal free stretch runs from the end of B to the
            // start of A.
            let free_cap = self.a.index - self.b.count;
            if free_cap == 0 {
                return None;
            }
            let reserved = if req_cap < free_cap {
                req_cap
            } else {
                free_cap
            };
            self.rsvp.index = self.b.count;
            self.rsvp.count = reserved;
            Some((self.b.count, reserved))
        } else {
            let after = self.size - self.a.index - self.a.count;
            // Use the larger of the stretches before or after the A region.
            if after >= self.a.index {
                if after == 0 {
                    return None;
                }
                let reserved = if req_cap < after {
                    req_cap
                } else {
                    after
                };
                let off = self.a.index + self.a.count;
                self.rsvp.index = off;
                self.rsvp.count = reserved;
                Some((off, reserved))
            } else {
                // Here the stretch before A is the larger one, so it is
                // nonempty; this reservation, once committed, creates or
                // extends B.
                let reserved = if req_cap < self.a.index {
                    req_cap
                } else {
                    self.a.index
                };
                self.rsvp.index = 0;
                self.rsvp.count = reserved;
                Some((0, reserved))
            }
        }
    }

    /// Folds `count` written elements of the outstanding reservation into
    /// committed state.
    ///
    /// A zero count cancels the reservation and leaves the regions exactly
    /// as they were; a larger count is clipped to the reservation's length.
    /// The elements land in `A` when the buffer was empty or the
    /// reservation adjoins `A`'s end, and in `B` otherwise, activating it.
    /// The reservation is cleared in every case.
    pub fn commit(&mut self, count: usize)
        requires
            old(self).wf(),
        ensures
            final(self).wf(),
            *final(self) == old(self).after_commit(count),
            final(self).rsvp.index == 0 && final(self).rsvp.count == 0,
            final(self).size == old(self).size,
            final(self).used_els() == old(self).used_els() + old(self).commit_len(count),
            count == 0 || old(self).rsvp.count == 0 ==> {
                final(self).a == old(self).a && final(self).b == old(self).b
            },
    {
        // Clip the commit count to the reservation; nothing to fold means
        // the reservation is simply cancelled.
        let folded = if count > self.rsvp.count {
            self.rsvp.count
        } else {
            count
        };
        if folded == 0 {
            self.rsvp.index = 0;
            self.rsvp.count = 0;
            return;
        }
        if self.a.count == 0 && self.b.count == 0 {
            // No block in use yet: the reservation becomes the A region.
            self.a.index = self.rsvp.index;
            self.a.count = folded;
        } else if self.rsvp.index == self.a.index + self.a.count {
            // The reservation adjoins A's end: extend A.
            self.a.count = self.a.count + folded;
        } else {
            // Otherwise the elements belong to B, which becomes active.
            self.b.count = self.b.count + folded;
            self.b.in_use = true;
        }
        self.rsvp.index = 0;
        self.rsvp.count = 0;
    }

    /// Retires up to `count` elements from the front of `A`, i.e. from
    /// data already obtained through `get_block` and consumed externally.
    ///
    /// Retiring all of `A` promotes `B`, when active, into the `A` slot and
    /// deactivates it; otherwise `A` shrinks from the front.
    pub fn decommit_block(&mut self, count: usize)
        requires
            old(self).wf(),
        ensures
            final(self).wf(),
            *final(self) == old(self).after_decommit(count),
            final(self).rsvp == old(self).rsvp,
            final(self).size == old(self).size,
            final(self).used_els() == old(self).used_els() - (if count >= old(self).a.count {
                old(self).a.count as int
            } else {
                count as int
            }),
            count >= old(self).a.count ==> {
                &&& final(self).a.index == 0
                &&& final(self).a.count == old(self).b.count
                &&& final(self).b.count == 0 && !final(self).b.in_use
            },
            count < old(self).a.count ==> {
                &&& final(self).a.index == old(self).a.index + count
                &&& final(self).a.count == old(self).a.count - count
                &&& final(self).b == old(self).b
            },
    {
        if count >= self.a.count {
            self.a.index = 0;
            self.a.count = self.b.count;
            self.b.count = 0;
            self.b.in_use = false;
        } else {
            self.a.count = self.a.count - count;
            self.a.index = self.a.index + count;
        }
    }

    /// Returns how many elements have been committed in the buffer.
    pub fn get_commited_size(&self) -> (r: usize)
        requires
            self.wf(),
        ensures
            r == self.used_els(),
    {
        self.a.count + self.b.count
    }

    /// Returns how many elements the outstanding reservation spans.
    pub fn get_reservation_size(&self) -> (r: usize)
        ensures
            r == self.rsvp.count,
    {
        self.rsvp.count
    }

    /// Returns the element capacity of the buffer.
    pub fn get_buffer_size(&self) -> (r: usize)
        ensures
            r == self.size,
    {
        self.size
    }

    /// Returns the number of free elements following the `A` region.
    pub fn get_elements_after_a(&self) -> (r: usize)
        requires
            self.wf(),
        ensures
            r == self.size - self.a.index - self.a.count,
    {
        self.size - self.a.index - self.a.count
    }

    /// Returns the number of free elements available for `B`: the start of
    /// `A` minus the elements already in use by `B`, whose own start is
    /// always offset 0.
    pub fn get_b_free_elements(&self) -> (r: usize)
        requires
            self.wf(),
        ensures
            r == self.a.index - self.b.count,
    {
        self.a.index - self.b.count
    }
}

} // verus!
