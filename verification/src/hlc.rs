//! Hybrid logical clock: a total order on writes across devices.
use vstd::prelude::*;

verus! {

/// Largest millisecond value that fits a packed timestamp (47 bits).
pub const HLC_MAX_MS: u64 = 0x7fff_ffff_ffff;

/// Largest counter value within one millisecond.
pub const HLC_MAX_COUNTER: u16 = 0xffff;

/// `std::time::SystemTime`, carried as it is.
#[verifier::external_type_specification]
#[verifier::external_body]
pub struct ExSystemTime(std::time::SystemTime);

/// A point of the clock: milliseconds since the Unix epoch, and a counter that
/// tells points of one millisecond apart. The order is that of `ms`, then
/// `counter`.
#[derive(Clone, Copy, Debug, PartialEq, Eq, PartialOrd, Ord, Hash, Structural)]
pub struct Hlc {
    pub ms: u64,
    pub counter: u16,
}

/// Calls `std::time::SystemTime::now`. Nothing is stated of the time.
#[verifier::external_body]
fn system_now() -> (r: std::time::SystemTime) {
    std::time::SystemTime::now()
}

/// Calls `std::time::SystemTime::duration_since` with the Unix epoch: `None`
/// stands for a clock set before it. Nothing is stated of the duration.
#[verifier::external_body]
fn since_epoch(t: std::time::SystemTime) -> (r: Option<core::time::Duration>) {
    t.duration_since(std::time::UNIX_EPOCH).ok()
}

/// Calls `core::time::Duration::as_millis`. Nothing is stated of the number: a
/// duration is opaque here.
#[verifier::external_body]
fn whole_millis(d: core::time::Duration) -> (r: u128) {
    d.as_millis()
}

/// What a wall clock shows so many milliseconds after the Unix epoch: the number in
/// 64 bits, but no more than [`HLC_MAX_MS`]; 0 where the clock is set before the
/// epoch.
pub open spec fn shown_ms(millis: Option<u128>) -> int {
    let raw: int = match millis {
        Some(m) => m as int % 0x1_0000_0000_0000_0000,
        None => 0,
    };
    if raw < HLC_MAX_MS {
        raw
    } else {
        HLC_MAX_MS as int
    }
}

/// What a wall clock shows so many milliseconds after the Unix epoch; `None` stands
/// for a clock set before it.
pub fn clock_ms(millis: Option<u128>) -> (r: u64)
    ensures
        r == shown_ms(millis),
{
    let raw: u64 = match millis {
        Some(m) => {
            assert(m as u64 == m % 0x1_0000_0000_0000_0000u128) by (bit_vector);
            #[verifier::truncate]
            (m as u64)
        },
        None => 0,
    };
    if raw < HLC_MAX_MS {
        raw
    } else {
        HLC_MAX_MS
    }
}

/// What the system clock shows. Which time that is, is not stated; that it can be
/// packed is.
pub fn wall_clock_ms() -> (r: u64)
    ensures
        exists|millis: Option<u128>| r == #[trigger] shown_ms(millis),
        r <= HLC_MAX_MS,
{
    let millis: Option<u128> = match since_epoch(system_now()) {
        Some(d) => Some(whole_millis(d)),
        None => None,
    };
    let r: u64 = clock_ms(millis);
    assert(r == shown_ms(millis));
    r
}

impl Hlc {
    /// Whether the milliseconds fit a packed timestamp.
    pub open spec fn valid(self) -> bool {
        self.ms <= HLC_MAX_MS
    }

    /// Whether the clock has reached the last point it can represent.
    pub open spec fn saturated(self) -> bool {
        self.ms == HLC_MAX_MS && self.counter == HLC_MAX_COUNTER
    }

    /// The order of two points.
    pub open spec fn before(self, other: Hlc) -> bool {
        self.ms < other.ms || (self.ms == other.ms && self.counter < other.counter)
    }

    /// The point that follows `self` when the wall clock shows `wall_ms`.
    pub open spec fn after_tick(self, wall_ms: u64) -> Hlc {
        let wall = if wall_ms < HLC_MAX_MS {
            wall_ms
        } else {
            HLC_MAX_MS
        };
        if wall > self.ms {
            Hlc { ms: wall, counter: 0 }
        } else if self.counter == HLC_MAX_COUNTER {
            Hlc {
                ms: if self.ms < HLC_MAX_MS {
                    (self.ms + 1) as u64
                } else {
                    HLC_MAX_MS
                },
                counter: 0,
            }
        } else {
            Hlc { ms: self.ms, counter: (self.counter + 1) as u16 }
        }
    }

    /// The number that stands for this point in storage.
    pub open spec fn packed(self) -> int {
        (self.ms as int % 0x8000_0000_0000) * 0x1_0000 + self.counter
    }

    /// Moves the clock on, for a wall clock that shows `wall_ms`.
    pub fn tick(&self, wall_ms: u64) -> (r: Hlc)
        ensures
            r == self.after_tick(wall_ms),
    {
        let wall: u64 = if wall_ms < HLC_MAX_MS {
            wall_ms
        } else {
            HLC_MAX_MS
        };
        if wall > self.ms {
            Hlc { ms: wall, counter: 0 }
        } else if self.counter == HLC_MAX_COUNTER {
            let next: u64 = if self.ms < HLC_MAX_MS {
                self.ms + 1
            } else {
                HLC_MAX_MS
            };
            Hlc { ms: next, counter: 0 }
        } else {
            Hlc { ms: self.ms, counter: self.counter + 1 }
        }
    }

    /// Takes the next point of the clock whose last point is `state`, for what the
    /// system clock shows. Whatever the
    /// wall clock shows, the point does not lie before the last one, and lies
    /// after it unless the clock is saturated.
    pub fn now(state: &mut Hlc) -> (r: Hlc)
        ensures
            exists|wall_ms: u64|
                call_ensures(wall_clock_ms, (), wall_ms) && r == #[trigger] old(state).after_tick(
                    wall_ms,
                ),
            *final(state) == r,
            old(state).valid() ==> r.valid(),
            old(state).valid() && !old(state).saturated() ==> old(state).before(r),
    {
        let wall: u64 = wall_clock_ms();
        let next = state.tick(wall);
        *state = next;
        next
    }

    /// Packs the point into a non-negative number whose order is that of the
    /// points. Milliseconds beyond 47 bits lose their upper bits.
    pub fn pack(&self) -> (r: i64)
        ensures
            r == self.packed(),
            0 <= r,
    {
        let ms: u64 = self.ms;
        let counter_bits: u64 = self.counter as u64;
        assert(ms & 0x7fff_ffff_ffff == ms % 0x8000_0000_0000) by (bit_vector);
        let low: u64 = ms & HLC_MAX_MS;
        assert((low << 16) == low * 0x1_0000) by (bit_vector)
            requires
                low < 0x8000_0000_0000u64,
        ;
        assert(((low << 16) | counter_bits) == (low << 16) + counter_bits) by (bit_vector)
            requires
                counter_bits <= 0xffffu64,
                low < 0x8000_0000_0000u64,
        ;
        ((low << 16) | counter_bits) as i64
    }

    /// The point that a packed number stands for.
    pub open spec fn of_packed(packed: int) -> Hlc {
        Hlc {
            ms: ((packed / 0x1_0000) % 0x8000_0000_0000) as u64,
            counter: (packed % 0x1_0000) as u16,
        }
    }

    /// Reads a packed point. Below zero the number stands for its 64 bits.
    pub fn unpack(packed: i64) -> (r: Hlc)
        ensures
            r == Hlc::of_packed(
                if packed < 0 {
                    packed + 0x1_0000_0000_0000_0000
                } else {
                    packed as int
                },
            ),
            r.valid(),
    {
        #[verifier::truncate]
        let bits: u64 = packed as u64;
        proof {
            assert(packed >= 0 ==> bits == packed) by (bit_vector)
                requires
                    bits == packed as u64,
            ;
            assert(packed < 0 ==> bits == packed + 0x1_0000_0000_0000_0000) by (bit_vector)
                requires
                    bits == packed as u64,
            ;
            assert(bits & 0xffff == bits % 0x1_0000) by (bit_vector);
            assert((bits >> 16) & 0x7fff_ffff_ffff == (bits / 0x1_0000) % 0x8000_0000_0000)
                by (bit_vector);
        }
        let counter: u16 = (bits & 0xFFFF) as u16;
        let ms: u64 = (bits >> 16) & HLC_MAX_MS;
        Hlc { ms, counter }
    }
}

/// Packing and unpacking gives the point back.
pub proof fn law_pack_round_trip(h: Hlc)
    requires
        h.valid(),
    ensures
        Hlc::of_packed(h.packed()) == h,
        0 <= h.packed() <= i64::MAX,
{
    assert(h.ms as int % 0x8000_0000_0000 == h.ms);
    assert((h.ms * 0x1_0000 + h.counter) / 0x1_0000 == h.ms);
    assert((h.ms * 0x1_0000 + h.counter) % 0x1_0000 == h.counter as int);
}

/// Packed points are ordered as the points are, so that sorting by the stored
/// number sorts by the clock.
pub proof fn law_pack_keeps_order(a: Hlc, b: Hlc)
    requires
        a.valid(),
        b.valid(),
    ensures
        a.before(b) <==> a.packed() < b.packed(),
        a == b <==> a.packed() == b.packed(),
{
    assert(a.ms as int % 0x8000_0000_0000 == a.ms);
    assert(b.ms as int % 0x8000_0000_0000 == b.ms);
}

/// The next point is the first one that lies after the last and not before what the
/// wall clock shows, as far as the clock reaches: no point in between is left out.
pub proof fn law_tick_takes_the_next_point(state: Hlc, wall_ms: u64, other: Hlc)
    requires
        state.valid(),
        !state.saturated(),
        other.valid(),
        state.before(other),
        other.ms >= wall_ms || other.ms == HLC_MAX_MS,
    ensures
        wall_ms <= HLC_MAX_MS ==> state.after_tick(wall_ms).ms >= wall_ms,
        wall_ms > HLC_MAX_MS ==> state.after_tick(wall_ms).ms == HLC_MAX_MS,
        !other.before(state.after_tick(wall_ms)),
{
}

/// A wall clock that shows a time that can be packed shows just that.
pub proof fn law_wall_clock_is_taken_as_it_is(millis: u128)
    ensures
        millis <= HLC_MAX_MS ==> shown_ms(Some(millis)) == millis,
        shown_ms(Some(millis)) <= HLC_MAX_MS,
        shown_ms(None) == 0,
{
}

/// The clock never runs backwards, whatever the wall clock shows, until it is
/// saturated; there the next point has the same milliseconds and a counter of 0.
pub proof fn law_tick_is_monotonic(state: Hlc, wall_ms: u64)
    requires
        state.valid(),
    ensures
        state.after_tick(wall_ms).valid(),
        !state.saturated() ==> state.before(state.after_tick(wall_ms)),
        state.saturated() ==> state.after_tick(wall_ms) == (Hlc { ms: HLC_MAX_MS, counter: 0 }),
{
}

} // verus!
