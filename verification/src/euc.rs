//! Euclidean rhythms of up to thirty-two slots.
//!
//! A Euclidean rhythm spreads a number of hits as evenly as it can over a
//! number of slots. The pattern is built by a counter that has crossed the
//! interval once per hit: after `i` slots, the hits so far number the times
//! the interval fits into the counter's run.

use vstd::prelude::*;

verus! {

/// An evenly spread pattern of hits over at most thirty-two slots. Slot `i`
/// is bit `i` of the pattern word.
pub struct Euc32 {
    interval: u32,
    data: u32,
}

/// A walk round and round the slots of a pattern.
pub struct Euc32Cycler {
    interval: u32,
    data: u32,
    at: u32,
}

/// The counter before the first slot: the smallest multiple of `hits` that
/// is not below `interval`.
pub open spec fn start_counter(hits: int, interval: int) -> int {
    hits * ((interval - 1) / hits + 1)
}

/// The number of hits among the first `i` slots of the rhythm of `hits` hits
/// over `interval` slots.
pub open spec fn hits_before(hits: int, interval: int, i: int) -> int {
    if hits == 0 {
        0
    } else {
        (start_counter(hits, interval) - hits + i * hits) / interval
    }
}

/// Whether slot `i` of the rhythm of `hits` hits over `interval` slots is a
/// hit.
pub open spec fn slot_is_hit(hits: int, interval: int, i: int) -> bool {
    hits_before(hits, interval, i + 1) > hits_before(hits, interval, i)
}

/// Whether bit `i` of `data` is set.
pub open spec fn bit_is_set(data: u32, i: u32) -> bool {
    data & (1u32 << i) != 0
}

/// The number of set bits of `data` below bit `upto`.
pub open spec fn bits_set_below(data: u32, upto: nat) -> nat
    decreases upto,
{
    if upto == 0 {
        0
    } else {
        bits_set_below(data, (upto - 1) as nat) + if bit_is_set(data, (upto - 1) as u32) {
            1nat
        } else {
            0nat
        }
    }
}

/// The character that shows a slot.
pub open spec fn slot_char(hit: bool) -> char {
    if hit {
        'x'
    } else {
        '.'
    }
}

/// Setting bit `i` changes no other of the thirty-two bits.
proof fn lemma_set_bit(data: u32, i: u32, j: u32)
    by (bit_vector)
    requires
        i < 32,
        j < 32,
    ensures
        bit_is_set(data | (1u32 << i), j) == (bit_is_set(data, j) || j == i),
{
}

/// No bit of zero is set.
proof fn lemma_no_bit_of_zero(j: u32)
    by (bit_vector)
    requires
        j < 32,
    ensures
        !bit_is_set(0u32, j),
{
}

/// Words that agree below bit `upto` have as many set bits there.
proof fn lemma_bits_set_below_agree(a: u32, b: u32, upto: nat)
    requires
        upto <= 32,
        forall|j: u32| j < upto ==> bit_is_set(a, j) == bit_is_set(b, j),
    ensures
        bits_set_below(a, upto) == bits_set_below(b, upto),
    decreases upto,
{
    if upto > 0 {
        lemma_bits_set_below_agree(a, b, (upto - 1) as nat);
        assert(bit_is_set(a, (upto - 1) as u32) == bit_is_set(b, (upto - 1) as u32));
    }
}

/// The counter starts in the band from `interval` up to `interval + hits`.
proof fn lemma_start_counter(hits: int, interval: int)
    requires
        0 < hits <= interval,
    ensures
        interval <= start_counter(hits, interval) < interval + hits,
{
    let q = (interval - 1) / hits;
    assert(hits * q <= interval - 1 < hits * q + hits) by (nonlinear_arith)
        requires
            q == (interval - 1) / hits,
            0 < hits,
            0 <= interval - 1,
    ;
    assert(hits * (q + 1) == hits * q + hits) by (nonlinear_arith);
}

/// A quotient is known from a remainder in range.
proof fn lemma_quotient(x: int, d: int, q: int, r: int)
    by (nonlinear_arith)
    requires
        d > 0,
        x == q * d + r,
        0 <= r < d,
    ensures
        x / d == q,
{
}

/// One step of the counter: where it stands `hits` above a remainder of the
/// run so far, the hits before the next slot are those before this one, and
/// one more where the counter has reached the interval.
proof fn lemma_counter_step(hits: int, interval: int, i: int, n: int, ctr: int)
    requires
        0 < hits <= interval,
        0 <= i,
        ctr == start_counter(hits, interval) + i * hits - n * interval,
        hits <= ctr < interval + hits,
    ensures
        hits_before(hits, interval, i) == n,
        hits_before(hits, interval, i + 1) == if ctr >= interval {
            n + 1
        } else {
            n
        },
{
    let c0 = start_counter(hits, interval);
    lemma_quotient(c0 - hits + i * hits, interval, n, ctr - hits);
    assert((i + 1) * hits == i * hits + hits) by (nonlinear_arith);
    if ctr >= interval {
        assert((n + 1) * interval == n * interval + interval) by (nonlinear_arith);
        lemma_quotient(c0 - hits + (i + 1) * hits, interval, n + 1, ctr - interval);
    } else {
        lemma_quotient(c0 - hits + (i + 1) * hits, interval, n, ctr);
    }
}

/// The rhythm of `hits` hits over `interval` slots has `hits` hits in all.
pub proof fn lemma_hits_in_all(hits: int, interval: int)
    requires
        0 <= hits <= interval,
        0 < interval,
    ensures
        hits_before(hits, interval, 0) == 0,
        hits_before(hits, interval, interval) == hits,
{
    if hits > 0 {
        let c0 = start_counter(hits, interval);
        lemma_start_counter(hits, interval);
        lemma_quotient(c0 - hits + 0 * hits, interval, 0, c0 - hits);
        assert(c0 - hits + interval * hits == hits * interval + (c0 - hits)) by (nonlinear_arith);
        lemma_quotient(c0 - hits + interval * hits, interval, hits, c0 - hits);
    }
}

impl Euc32 {
    /// The pattern has one to thirty-two slots and no bit beyond them.
    #[verifier::type_invariant]
    pub closed spec fn wf(self) -> bool {
        &&& 0 < self.interval <= 32
        &&& forall|j: u32| self.interval <= j < 32 ==> !bit_is_set(self.data, j)
    }

    /// The number of slots.
    pub closed spec fn spec_interval(&self) -> u32 {
        self.interval
    }

    /// The pattern word: bit `i` is slot `i`.
    pub closed spec fn spec_data(&self) -> u32 {
        self.data
    }

    /// The slots in order: `true` for a hit.
    pub open spec fn pattern(&self) -> Seq<bool> {
        Seq::new(self.interval() as nat, |i: int| bit_is_set(self.data(), i as u32))
    }

    /// The rhythm of `hits` hits over `interval` slots. There is none for no
    /// slots, for more than thirty-two, or for more hits than slots. The
    /// pattern has exactly `hits` set bits, all of them among its slots.
    pub fn new(hits: u32, interval: u32) -> (r: Option<Euc32>)
        ensures
            (interval == 0 || interval > 32 || hits > interval) ==> r is None,
            !(interval == 0 || interval > 32 || hits > interval) ==> {
                &&& r is Some
                &&& r->Some_0.wf()
                &&& r->Some_0.interval() == interval
                &&& r->Some_0.pattern() == Seq::new(
                    interval as nat,
                    |i: int| slot_is_hit(hits as int, interval as int, i),
                )
                &&& bits_set_below(r->Some_0.data(), interval as nat) == hits
                &&& forall|j: u32| interval <= j < 32 ==> !bit_is_set(r->Some_0.data(), j)
            },
    {
        if (interval == 0) || (hits > 32) || (interval > 32) || (hits > interval) {
            return None;
        }
        if hits == 0 {
            proof {
                assert forall|j: u32| j < 32 implies !bit_is_set(0u32, j) by {
                    lemma_no_bit_of_zero(j);
                }
                lemma_bits_zero(interval as nat);
            }
            let e = Euc32 { interval, data: 0 };
            assert(e.pattern() == Seq::new(
                interval as nat,
                |i: int| slot_is_hit(hits as int, interval as int, i),
            ));
            return Some(e);
        }
        proof {
            lemma_start_counter(hits as int, interval as int);
            assert(hits * ((interval - 1) / hits as int + 1) == start_counter(
                hits as int,
                interval as int,
            ));
        }
        let mut ctr: u32 = hits * (((interval - 1) / hits) + 1);
        let mut data: u32 = 0;
        let ghost mut n: int = 0;
        proof {
            assert forall|j: u32| j < 32 implies !bit_is_set(0u32, j) by {
                lemma_no_bit_of_zero(j);
            }
            assert(0 * hits == 0) by (nonlinear_arith);
            assert(0 * interval == 0) by (nonlinear_arith);
            lemma_hits_in_all(hits as int, interval as int);
        }
        let mut i: u32 = 0;
        while i < interval
            invariant
                0 < hits <= interval <= 32,
                i <= interval,
                ctr == start_counter(hits as int, interval as int) + i * hits - n * interval,
                hits <= ctr < interval + hits,
                n == bits_set_below(data, i as nat),
                n == hits_before(hits as int, interval as int, i as int),
                forall|j: u32|
                    j < i ==> bit_is_set(data, j) == slot_is_hit(
                        hits as int,
                        interval as int,
                        j as int,
                    ),
                forall|j: u32| i <= j < 32 ==> !bit_is_set(data, j),
            decreases interval - i,
        {
            let ghost before = data;
            let ghost set = ctr >= interval;
            proof {
                lemma_counter_step(hits as int, interval as int, i as int, n, ctr as int);
                assert((i + 1) * hits == i * hits + hits) by (nonlinear_arith);
            }
            if ctr >= interval {
                data |= 1 << i;
                ctr -= interval;
                proof {
                    assert((n + 1) * interval == n * interval + interval) by (nonlinear_arith);
                    n = n + 1;
                }
            }
            ctr += hits;
            proof {
                assert forall|j: u32| j < 32 implies bit_is_set(data, j) == (bit_is_set(before, j)
                    || (set && j == i)) by {
                    if set {
                        lemma_set_bit(before, i, j);
                    }
                }
                lemma_bits_set_below_agree(data, before, i as nat);
                assert(bit_is_set(data, i) == set);
                assert(bits_set_below(data, (i + 1) as nat) == bits_set_below(data, i as nat)
                    + if bit_is_set(data, i) {
                    1nat
                } else {
                    0nat
                });
                assert(slot_is_hit(hits as int, interval as int, i as int) == set);
            }
            i += 1;
        }
        proof {
            lemma_hits_in_all(hits as int, interval as int);
        }
        let e = Euc32 { interval, data };
        assert(e.pattern() == Seq::new(
            interval as nat,
            |i: int| slot_is_hit(hits as int, interval as int, i),
        ));
        Some(e)
    }

    /// The number of slots.
    #[verifier::when_used_as_spec(spec_interval)]
    pub fn interval(&self) -> (n: u32)
        ensures
            n == self.interval(),
            0 < n <= 32,
    {
        proof {
            use_type_invariant(self);
        }
        self.interval
    }

    /// The pattern word: bit `i` is slot `i`.
    #[verifier::when_used_as_spec(spec_data)]
    pub fn data(&self) -> (d: u32)
        ensures
            d == self.data(),
    {
        self.data
    }

    /// The pattern as text: a bracket, then `x` for a hit and `.` for a
    /// pause, slot by slot, then the closing bracket.
    pub fn stringify(&self) -> (out: String)
        ensures
            out@ == seq!['['] + Seq::new(
                self.interval() as nat,
                |i: int| slot_char(self.pattern()[i]),
            ) + seq![']'],
    {
        proof {
            use_type_invariant(self);
            reveal_strlit("[");
        }
        let mut out = String::new();
        out.append("[");
        let mut i: u32 = 0;
        while i < self.interval
            invariant
                i <= self.interval <= 32,
                out@ == seq!['['] + Seq::new(i as nat, |k: int| slot_char(self.pattern()[k])),
            decreases self.interval - i,
        {
            let ghost before = out@;
            proof {
                reveal_strlit("x");
                reveal_strlit(".");
            }
            if (self.data & (1 << i)) != 0 {
                out.append("x");
            } else {
                out.append(".");
            }
            proof {
                assert(out@ == before.push(slot_char(self.pattern()[i as int])));
                assert(Seq::new((i + 1) as nat, |k: int| slot_char(self.pattern()[k])) == Seq::new(
                    i as nat,
                    |k: int| slot_char(self.pattern()[k]),
                ).push(slot_char(self.pattern()[i as int])));
            }
            i += 1;
        }
        proof {
            reveal_strlit("]");
        }
        out.append("]");
        out
    }

    /// A walk round and round the slots, starting at the first.
    pub fn cycler(&self) -> (walk: Euc32Cycler)
        ensures
            walk.wf(),
            walk.pattern() == self.pattern(),
            walk.position() == 0,
    {
        proof {
            use_type_invariant(self);
        }
        Euc32Cycler { interval: self.interval, data: self.data, at: 0 }
    }
}

/// Below any bit, zero has no set bit.
proof fn lemma_bits_zero(upto: nat)
    requires
        upto <= 32,
    ensures
        bits_set_below(0u32, upto) == 0,
    decreases upto,
{
    if upto > 0 {
        lemma_bits_zero((upto - 1) as nat);
        lemma_no_bit_of_zero((upto - 1) as u32);
    }
}

impl Euc32Cycler {
    /// The walk stands on one of the one to thirty-two slots.
    #[verifier::type_invariant]
    pub closed spec fn wf(self) -> bool {
        0 < self.interval <= 32 && self.at < self.interval
    }

    /// The slots of the pattern in order.
    pub closed spec fn pattern(&self) -> Seq<bool> {
        Seq::new(self.interval as nat, |i: int| bit_is_set(self.data, i as u32))
    }

    /// The slot that the walk hands out next.
    pub closed spec fn position(&self) -> int {
        self.at as int
    }

    /// The next slot. After the last slot the walk goes on with the first.
    pub fn next(&mut self) -> (hit: bool)
        ensures
            final(self).wf(),
            final(self).pattern() == old(self).pattern(),
            0 <= old(self).position() < old(self).pattern().len(),
            hit == old(self).pattern()[old(self).position()],
            final(self).position() == if old(self).position() + 1 == old(self).pattern().len() {
                0
            } else {
                old(self).position() + 1
            },
    {
        proof {
            use_type_invariant(&*self);
        }
        let hit: bool = (self.data & (1 << self.at)) != 0;
        let after: u32 = if self.at + 1 == self.interval {
            0
        } else {
            self.at + 1
        };
        self.at = after;
        hit
    }
}

} // verus!
