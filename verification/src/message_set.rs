//! A set of command kinds, kept as one bit per kind.

use crate::message_type::ButtplugDeviceMessageType;
use vstd::prelude::*;

verus! {

/// How many command kinds there are.
pub const KIND_COUNT: u32 = 14;

/// Every bit that stands for some command kind.
const ALL_KIND_BITS: u32 = 0x3fff;

/// The position of a command kind among all kinds.
pub open spec fn kind_index(kind: ButtplugDeviceMessageType) -> u32 {
    match kind {
        ButtplugDeviceMessageType::VibrateCmd => 0,
        ButtplugDeviceMessageType::LinearCmd => 1,
        ButtplugDeviceMessageType::RotateCmd => 2,
        ButtplugDeviceMessageType::StopDeviceCmd => 3,
        ButtplugDeviceMessageType::RawWriteCmd => 4,
        ButtplugDeviceMessageType::RawReadCmd => 5,
        ButtplugDeviceMessageType::RawSubscribeCmd => 6,
        ButtplugDeviceMessageType::RawUnsubscribeCmd => 7,
        ButtplugDeviceMessageType::BatteryLevelCmd => 8,
        ButtplugDeviceMessageType::RSSILevelCmd => 9,
        ButtplugDeviceMessageType::ScalarCmd => 10,
        ButtplugDeviceMessageType::SensorReadCmd => 11,
        ButtplugDeviceMessageType::SensorSubscribeCmd => 12,
        ButtplugDeviceMessageType::SensorUnsubscribeCmd => 13,
    }
}

/// The command kind at a position; positions past the last kind give the
/// last kind.
spec fn kind_at(index: u32) -> ButtplugDeviceMessageType {
    if index == 0 {
        ButtplugDeviceMessageType::VibrateCmd
    } else if index == 1 {
        ButtplugDeviceMessageType::LinearCmd
    } else if index == 2 {
        ButtplugDeviceMessageType::RotateCmd
    } else if index == 3 {
        ButtplugDeviceMessageType::StopDeviceCmd
    } else if index == 4 {
        ButtplugDeviceMessageType::RawWriteCmd
    } else if index == 5 {
        ButtplugDeviceMessageType::RawReadCmd
    } else if index == 6 {
        ButtplugDeviceMessageType::RawSubscribeCmd
    } else if index == 7 {
        ButtplugDeviceMessageType::RawUnsubscribeCmd
    } else if index == 8 {
        ButtplugDeviceMessageType::BatteryLevelCmd
    } else if index == 9 {
        ButtplugDeviceMessageType::RSSILevelCmd
    } else if index == 10 {
        ButtplugDeviceMessageType::ScalarCmd
    } else if index == 11 {
        ButtplugDeviceMessageType::SensorReadCmd
    } else if index == 12 {
        ButtplugDeviceMessageType::SensorSubscribeCmd
    } else {
        ButtplugDeviceMessageType::SensorUnsubscribeCmd
    }
}

/// The bit that stands for a command kind.
spec fn kind_bit(kind: ButtplugDeviceMessageType) -> u32 {
    1u32 << kind_index(kind)
}

/// The kinds whose bits are set in `bits`.
spec fn kinds_of_bits(bits: u32) -> Set<ButtplugDeviceMessageType> {
    Set::new(|kind: ButtplugDeviceMessageType| bits & kind_bit(kind) != 0)
}

/// Positions and kinds correspond one to one.
proof fn lemma_kind_positions()
    ensures
        forall|kind: ButtplugDeviceMessageType|
            #![trigger kind_index(kind)]
            kind_index(kind) < KIND_COUNT && kind_at(kind_index(kind)) == kind,
        forall|index: u32|
            #![trigger kind_at(index)]
            index < KIND_COUNT ==> kind_index(kind_at(index)) == index,
{
}

/// Setting bit `i` sets that bit and changes no other.
proof fn lemma_bit_set(bits: u32, i: u32, j: u32)
    by (bit_vector)
    requires
        i < 32,
        j < 32,
    ensures
        ((bits | (1u32 << i)) & (1u32 << j) != 0) == (i == j || bits & (1u32 << j) != 0),
{
}

/// Setting a kind's bit in a pattern of kind bits gives a pattern of kind
/// bits.
proof fn lemma_bit_in_bound(bits: u32, i: u32)
    by (bit_vector)
    requires
        bits <= 0x3fff,
        i < 14,
    ensures
        bits | (1u32 << i) <= 0x3fff,
{
}

/// The empty pattern has no bit set.
proof fn lemma_no_bit(i: u32)
    by (bit_vector)
    requires
        i < 32,
    ensures
        0u32 & (1u32 << i) == 0,
{
}

/// Two patterns of kind bits that agree on every kind's bit are the same.
proof fn lemma_bits_determined(a: u32, b: u32)
    by (bit_vector)
    requires
        a <= 0x3fff,
        b <= 0x3fff,
        (a & (1u32 << 0u32) != 0) == (b & (1u32 << 0u32) != 0),
        (a & (1u32 << 1u32) != 0) == (b & (1u32 << 1u32) != 0),
        (a & (1u32 << 2u32) != 0) == (b & (1u32 << 2u32) != 0),
        (a & (1u32 << 3u32) != 0) == (b & (1u32 << 3u32) != 0),
        (a & (1u32 << 4u32) != 0) == (b & (1u32 << 4u32) != 0),
        (a & (1u32 << 5u32) != 0) == (b & (1u32 << 5u32) != 0),
        (a & (1u32 << 6u32) != 0) == (b & (1u32 << 6u32) != 0),
        (a & (1u32 << 7u32) != 0) == (b & (1u32 << 7u32) != 0),
        (a & (1u32 << 8u32) != 0) == (b & (1u32 << 8u32) != 0),
        (a & (1u32 << 9u32) != 0) == (b & (1u32 << 9u32) != 0),
        (a & (1u32 << 10u32) != 0) == (b & (1u32 << 10u32) != 0),
        (a & (1u32 << 11u32) != 0) == (b & (1u32 << 11u32) != 0),
        (a & (1u32 << 12u32) != 0) == (b & (1u32 << 12u32) != 0),
        (a & (1u32 << 13u32) != 0) == (b & (1u32 << 13u32) != 0),
    ensures
        a == b,
{
}

/// Two bit patterns within the kind bits that hold the same kinds are the
/// same pattern.
proof fn lemma_same_kinds_same_bits(a: u32, b: u32)
    requires
        a <= ALL_KIND_BITS,
        b <= ALL_KIND_BITS,
        kinds_of_bits(a) == kinds_of_bits(b),
    ensures
        a == b,
{
    assert forall|kind: ButtplugDeviceMessageType|
        (a & kind_bit(kind) != 0) == (b & kind_bit(kind) != 0) by {
        assert(kinds_of_bits(a).contains(kind) == (a & kind_bit(kind) != 0));
        assert(kinds_of_bits(b).contains(kind) == (b & kind_bit(kind) != 0));
    }
    assert((a & kind_bit(ButtplugDeviceMessageType::VibrateCmd) != 0) == (b & kind_bit(
        ButtplugDeviceMessageType::VibrateCmd,
    ) != 0));
    assert((a & kind_bit(ButtplugDeviceMessageType::LinearCmd) != 0) == (b & kind_bit(
        ButtplugDeviceMessageType::LinearCmd,
    ) != 0));
    assert((a & kind_bit(ButtplugDeviceMessageType::RotateCmd) != 0) == (b & kind_bit(
        ButtplugDeviceMessageType::RotateCmd,
    ) != 0));
    assert((a & kind_bit(ButtplugDeviceMessageType::StopDeviceCmd) != 0) == (b & kind_bit(
        ButtplugDeviceMessageType::StopDeviceCmd,
    ) != 0));
    assert((a & kind_bit(ButtplugDeviceMessageType::RawWriteCmd) != 0) == (b & kind_bit(
        ButtplugDeviceMessageType::RawWriteCmd,
    ) != 0));
    assert((a & kind_bit(ButtplugDeviceMessageType::RawReadCmd) != 0) == (b & kind_bit(
        ButtplugDeviceMessageType::RawReadCmd,
    ) != 0));
    assert((a & kind_bit(ButtplugDeviceMessageType::RawSubscribeCmd) != 0) == (b & kind_bit(
        ButtplugDeviceMessageType::RawSubscribeCmd,
    ) != 0));
    assert((a & kind_bit(ButtplugDeviceMessageType::RawUnsubscribeCmd) != 0) == (b & kind_bit(
        ButtplugDeviceMessageType::RawUnsubscribeCmd,
    ) != 0));
    assert((a & kind_bit(ButtplugDeviceMessageType::BatteryLevelCmd) != 0) == (b & kind_bit(
        ButtplugDeviceMessageType::BatteryLevelCmd,
    ) != 0));
    assert((a & kind_bit(ButtplugDeviceMessageType::RSSILevelCmd) != 0) == (b & kind_bit(
        ButtplugDeviceMessageType::RSSILevelCmd,
    ) != 0));
    assert((a & kind_bit(ButtplugDeviceMessageType::ScalarCmd) != 0) == (b & kind_bit(
        ButtplugDeviceMessageType::ScalarCmd,
    ) != 0));
    assert((a & kind_bit(ButtplugDeviceMessageType::SensorReadCmd) != 0) == (b & kind_bit(
        ButtplugDeviceMessageType::SensorReadCmd,
    ) != 0));
    assert((a & kind_bit(ButtplugDeviceMessageType::SensorSubscribeCmd) != 0) == (b & kind_bit(
        ButtplugDeviceMessageType::SensorSubscribeCmd,
    ) != 0));
    assert((a & kind_bit(ButtplugDeviceMessageType::SensorUnsubscribeCmd) != 0) == (b & kind_bit(
        ButtplugDeviceMessageType::SensorUnsubscribeCmd,
    ) != 0));
    lemma_bits_determined(a, b);
}

/// The position of a command kind.
fn index_of(kind: ButtplugDeviceMessageType) -> (index: u32)
    ensures
        index == kind_index(kind),
        index < KIND_COUNT,
{
    match kind {
        ButtplugDeviceMessageType::VibrateCmd => 0,
        ButtplugDeviceMessageType::LinearCmd => 1,
        ButtplugDeviceMessageType::RotateCmd => 2,
        ButtplugDeviceMessageType::StopDeviceCmd => 3,
        ButtplugDeviceMessageType::RawWriteCmd => 4,
        ButtplugDeviceMessageType::RawReadCmd => 5,
        ButtplugDeviceMessageType::RawSubscribeCmd => 6,
        ButtplugDeviceMessageType::RawUnsubscribeCmd => 7,
        ButtplugDeviceMessageType::BatteryLevelCmd => 8,
        ButtplugDeviceMessageType::RSSILevelCmd => 9,
        ButtplugDeviceMessageType::ScalarCmd => 10,
        ButtplugDeviceMessageType::SensorReadCmd => 11,
        ButtplugDeviceMessageType::SensorSubscribeCmd => 12,
        ButtplugDeviceMessageType::SensorUnsubscribeCmd => 13,
    }
}

/// The command kind at a position.
fn kind_of(index: u32) -> (kind: ButtplugDeviceMessageType)
    requires
        index < KIND_COUNT,
    ensures
        kind == kind_at(index),
        kind_index(kind) == index,
{
    if index == 0 {
        ButtplugDeviceMessageType::VibrateCmd
    } else if index == 1 {
        ButtplugDeviceMessageType::LinearCmd
    } else if index == 2 {
        ButtplugDeviceMessageType::RotateCmd
    } else if index == 3 {
        ButtplugDeviceMessageType::StopDeviceCmd
    } else if index == 4 {
        ButtplugDeviceMessageType::RawWriteCmd
    } else if index == 5 {
        ButtplugDeviceMessageType::RawReadCmd
    } else if index == 6 {
        ButtplugDeviceMessageType::RawSubscribeCmd
    } else if index == 7 {
        ButtplugDeviceMessageType::RawUnsubscribeCmd
    } else if index == 8 {
        ButtplugDeviceMessageType::BatteryLevelCmd
    } else if index == 9 {
        ButtplugDeviceMessageType::RSSILevelCmd
    } else if index == 10 {
        ButtplugDeviceMessageType::ScalarCmd
    } else if index == 11 {
        ButtplugDeviceMessageType::SensorReadCmd
    } else if index == 12 {
        ButtplugDeviceMessageType::SensorSubscribeCmd
    } else {
        ButtplugDeviceMessageType::SensorUnsubscribeCmd
    }
}

/// The bit that stands for a command kind.
fn bit_of(kind: ButtplugDeviceMessageType) -> (bit: u32)
    ensures
        bit == kind_bit(kind),
{
    1u32 << index_of(kind)
}

/// A set of command kinds.
#[derive(Clone, Copy, Debug)]
pub struct MessageSet {
    bits: u32,
}

impl View for MessageSet {
    type V = Set<ButtplugDeviceMessageType>;

    closed spec fn view(&self) -> Set<ButtplugDeviceMessageType> {
        kinds_of_bits(self.bits)
    }
}

impl MessageSet {
    #[verifier::type_invariant]
    spec fn only_kind_bits(self) -> bool {
        self.bits <= ALL_KIND_BITS
    }

    /// The empty set.
    pub fn new() -> (set: Self)
        ensures
            set@ == Set::<ButtplugDeviceMessageType>::empty(),
    {
        let set = MessageSet { bits: 0 };
        proof {
            assert forall|kind: ButtplugDeviceMessageType| !set@.contains(kind) by {
                lemma_no_bit(kind_index(kind));
            }
            assert(set@ =~= Set::<ButtplugDeviceMessageType>::empty());
        }
        set
    }

    /// Whether `kind` is in the set.
    pub fn contains(&self, kind: ButtplugDeviceMessageType) -> (found: bool)
        ensures
            found == self@.contains(kind),
    {
        self.bits & bit_of(kind) != 0
    }

    /// Puts `kind` into the set, and says whether it was new.
    pub fn insert(&mut self, kind: ButtplugDeviceMessageType) -> (added: bool)
        ensures
            final(self)@ == old(self)@.insert(kind),
            added == !old(self)@.contains(kind),
    {
        proof {
            use_type_invariant(&*self);
        }
        let added = !self.contains(kind);
        let bit = bit_of(kind);
        proof {
            lemma_bit_in_bound(self.bits, kind_index(kind));
            assert forall|other: ButtplugDeviceMessageType|
                kinds_of_bits(self.bits | bit).contains(other) == old(self)@.insert(kind).contains(
                    other,
                ) by {
                lemma_bit_set(self.bits, kind_index(kind), kind_index(other));
            }
            assert(kinds_of_bits(self.bits | bit) =~= old(self)@.insert(kind));
        }
        self.bits = self.bits | bit;
        added
    }
    /// The set of the kinds that occur in `kinds`.
    pub fn from_slice(kinds: &[ButtplugDeviceMessageType]) -> (set: Self)
        ensures
            set@ == kinds@.to_set(),
    {
        let mut set = MessageSet::new();
        let mut i: usize = 0;
        while i < kinds.len()
            invariant
                i <= kinds.len(),
                forall|kind: ButtplugDeviceMessageType|
                    set@.contains(kind) <==> exists|j: int| 0 <= j < i && kinds@[j] == kind,
            decreases kinds.len() - i,
        {
            set.insert(kinds[i]);
            i = i + 1;
        }
        proof {
            assert forall|kind: ButtplugDeviceMessageType|
                set@.contains(kind) == kinds@.to_set().contains(kind) by {
                if kinds@.contains(kind) {
                    let j = choose|j: int| 0 <= j < kinds@.len() && kinds@[j] == kind;
                    assert(0 <= j < i && kinds@[j] == kind);
                }
            }
            assert(set@ =~= kinds@.to_set());
        }
        set
    }

    /// The kinds in the set, each once, in the order of their positions.
    pub fn to_vec(&self) -> (kinds: Vec<ButtplugDeviceMessageType>)
        ensures
            kinds@.to_set() == self@,
            forall|i: int, j: int|
                0 <= i < j < kinds@.len() ==> kind_index(kinds@[i]) < kind_index(kinds@[j]),
    {
        let mut kinds: Vec<ButtplugDeviceMessageType> = Vec::new();
        let mut index: u32 = 0;
        while index < KIND_COUNT
            invariant
                index <= KIND_COUNT,
                forall|i: int| 0 <= i < kinds@.len() ==> kind_index(#[trigger] kinds@[i]) < index,
                forall|i: int, j: int|
                    0 <= i < j < kinds@.len() ==> kind_index(kinds@[i]) < kind_index(kinds@[j]),
                forall|kind: ButtplugDeviceMessageType|
                    kinds@.contains(kind) <==> self@.contains(kind) && kind_index(kind) < index,
            decreases KIND_COUNT - index,
        {
            let kind = kind_of(index);
            if self.contains(kind) {
                let ghost before = kinds@;
                kinds.push(kind);
                proof {
                    assert forall|other: ButtplugDeviceMessageType|
                        kinds@.contains(other) <==> self@.contains(other) && kind_index(other)
                            < index + 1 by {
                        if kinds@.contains(other) {
                            let j = choose|j: int| 0 <= j < kinds@.len() && kinds@[j] == other;
                            if j < before.len() {
                                assert(before[j] == other);
                                assert(before.contains(other));
                            }
                        }
                        if self@.contains(other) && kind_index(other) < index + 1 {
                            if kind_index(other) < index {
                                assert(before.contains(other));
                                let j = choose|j: int| 0 <= j < before.len() && before[j] == other;
                                assert(kinds@[j] == other);
                            } else {
                                lemma_kind_positions();
                                assert(other == kind);
                                assert(kinds@[before.len() as int] == other);
                            }
                        }
                    }
                }
            } else {
                proof {
                    assert forall|other: ButtplugDeviceMessageType|
                        kinds@.contains(other) <==> self@.contains(other) && kind_index(other)
                            < index + 1 by {
                        if self@.contains(other) && kind_index(other) == index {
                            lemma_kind_positions();
                            assert(other == kind);
                        }
                    }
                }
            }
            index = index + 1;
        }
        proof {
            lemma_kind_positions();
            assert(kinds@.to_set() =~= self@);
        }
        kinds
    }

    /// How many kinds are in the set.
    pub fn len(&self) -> (count: usize)
        ensures
            self@.finite(),
            count == self@.len(),
    {
        let kinds = self.to_vec();
        proof {
            assert(kinds@.no_duplicates());
            kinds@.unique_seq_to_set();
        }
        kinds.len()
    }

    /// Whether no kind is in the set.
    pub fn is_empty(&self) -> (empty: bool)
        ensures
            empty == (self@ == Set::<ButtplugDeviceMessageType>::empty()),
    {
        proof {
            use_type_invariant(&*self);
            if self.bits != 0 && self@ == Set::<ButtplugDeviceMessageType>::empty() {
                assert forall|kind: ButtplugDeviceMessageType|
                    !kinds_of_bits(0).contains(kind) by {
                    lemma_no_bit(kind_index(kind));
                }
                assert(kinds_of_bits(0) =~= self@);
                lemma_same_kinds_same_bits(self.bits, 0);
            }
            if self.bits == 0 {
                assert forall|kind: ButtplugDeviceMessageType| !self@.contains(kind) by {
                    lemma_no_bit(kind_index(kind));
                }
                assert(self@ =~= Set::<ButtplugDeviceMessageType>::empty());
            }
        }
        self.bits == 0
    }
}

impl vstd::std_specs::cmp::PartialEqSpecImpl for MessageSet {
    open spec fn obeys_eq_spec() -> bool {
        true
    }

    open spec fn eq_spec(&self, other: &MessageSet) -> bool {
        self@ == other@
    }
}

impl PartialEq for MessageSet {
    /// Two sets are equal when they hold the same kinds.
    fn eq(&self, other: &MessageSet) -> (same: bool) {
        proof {
            use_type_invariant(&*self);
            use_type_invariant(&*other);
            if self@ == other@ {
                lemma_same_kinds_same_bits(self.bits, other.bits);
            }
        }
        self.bits == other.bits
    }
}

impl Eq for MessageSet {

}

} // verus!
