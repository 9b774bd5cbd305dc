use vstd::prelude::*;
use vstd::std_specs::cmp::PartialEqSpecImpl;
use vstd::std_specs::cmp::PartialEqSpec;
use vstd::std_specs::convert::FromSpecImpl;
use vstd::std_specs::convert::FromSpec;
use vstd::std_specs::ops::{BitAndSpecImpl, BitOrSpecImpl, BitXorSpecImpl, NotSpecImpl};

verus! {

/// Bit of the extended (EWKB) output, which carries an SRID and flags.
pub const EXTENDED_BITS: u8 = 4;

/// Bit of the little endian (NDR) output.
pub const NDR_BITS: u8 = 8;

/// Bit of the big endian (XDR) output.
pub const XDR_BITS: u8 = 16;

/// The bits that carry a named flag.
pub open spec fn all_flags_bits() -> u8 {
    NDR_BITS | XDR_BITS | EXTENDED_BITS
}

/// Flags that select the flavour of Well-Known Binary output.
///
/// A value is a set of flags kept as the bits of one byte; it may also hold
/// bits that correspond to no named flag.  Its view is that byte.
#[derive(Clone, Copy, Debug, PartialEq, Eq, Structural, PartialOrd, Ord, Hash)]
pub struct WKBVariant {
    bits: u8,
}

impl View for WKBVariant {
    type V = u8;

    closed spec fn view(&self) -> u8 {
        self.bits
    }
}

/// Two masks are the same value exactly when they hold the same bits.
pub broadcast proof fn lemma_view_injective(a: WKBVariant, b: WKBVariant)
    ensures
        #[trigger] a@ == #[trigger] b@ <==> a == b,
{
}

#[allow(non_upper_case_globals)]
impl WKBVariant {
    /// Little endian encoding.
    #[allow(non_snake_case)]
    pub fn NDR() -> (r: Self)
        ensures
            r@ == NDR_BITS,
    {
        Self { bits: NDR_BITS }
    }

    /// Big endian encoding.
    #[allow(non_snake_case)]
    pub fn XDR() -> (r: Self)
        ensures
            r@ == XDR_BITS,
    {
        Self { bits: XDR_BITS }
    }

    /// Extended variant.
    #[allow(non_snake_case)]
    pub fn Extended() -> (r: Self)
        ensures
            r@ == EXTENDED_BITS,
    {
        Self { bits: EXTENDED_BITS }
    }

    /// Returns the underlying bits of the bitmask.
    pub fn bits(&self) -> (r: u8)
        ensures
            r == self@,
    {
        self.bits
    }

    /// Returns a bitmask that contains all values.
    ///
    /// This includes bits that have no flag; `all_flags` holds the flags only.
    pub fn all_bits() -> (r: Self)
        ensures
            r@ == 0xffu8,
    {
        assert(!0u8 == 0xffu8) by (bit_vector);
        Self { bits: !0u8 }
    }

    /// Returns a bitmask that contains all flags.
    pub fn all_flags() -> (r: Self)
        ensures
            r@ == all_flags_bits(),
    {
        let bits = Self::NDR().bits | Self::XDR().bits | Self::Extended().bits | 0u8;
        assert(bits == all_flags_bits()) by (bit_vector)
            requires
                bits == NDR_BITS | XDR_BITS | EXTENDED_BITS | 0u8,
        ;
        Self { bits }
    }

    /// Returns `true` if the bitmask contains all values (every bit set).
    pub fn is_all_bits(&self) -> (r: bool)
        ensures
            r == (self@ == 0xffu8),
    {
        assert(!0u8 == 0xffu8) by (bit_vector);
        self.bits == !0u8
    }

    /// Returns `true` if the bitmask holds exactly the flags.
    ///
    /// This fails if any bit without a flag is set; `truncate` clears those.
    pub fn is_all_flags(&self) -> (r: bool)
        ensures
            r == (self@ == all_flags_bits()),
    {
        self.bits == Self::all_flags().bits
    }

    /// Deprecated alias of `all_bits`.
    pub fn all() -> (r: Self)
        ensures
            r@ == 0xffu8,
    {
        Self::all_bits()
    }

    /// Deprecated alias of `is_all_bits`.
    pub fn is_all(&self) -> (r: bool)
        ensures
            r == (self@ == 0xffu8),
    {
        self.is_all_bits()
    }

    /// Deprecated alias of `all_flags`.
    pub fn full() -> (r: Self)
        ensures
            r@ == all_flags_bits(),
    {
        Self::all_flags()
    }

    /// Deprecated alias of `is_all_flags`.
    pub fn is_full(&self) -> (r: bool)
        ensures
            r == (self@ == all_flags_bits()),
    {
        self.is_all_flags()
    }

    /// Returns a bitmask that does not contain any values.
    pub fn none() -> (r: Self)
        ensures
            r@ == 0u8,
    {
        Self { bits: 0u8 }
    }

    /// Returns `true` if the bitmask does not contain any values.
    pub fn is_none(&self) -> (r: bool)
        ensures
            r == (self@ == 0u8),
    {
        self.bits == 0u8
    }

    /// Returns a bitmask that only has bits corresponding to flags.
    pub fn truncate(&self) -> (r: Self)
        ensures
            r@ == self@ & all_flags_bits(),
    {
        Self { bits: self.bits & Self::all_flags().bits }
    }

    /// Returns `true` if `self` intersects with any value in `other`,
    /// or if `other` does not contain any values.
    pub fn intersects(&self, other: Self) -> (r: bool)
        ensures
            r == ((self@ & other@) != 0u8 || other@ == 0u8),
    {
        (self.bits & other.bits) != 0u8 || other.bits == 0u8
    }

    /// Returns `true` if `self` contains all values of `other`.
    pub fn contains(&self, other: Self) -> (r: bool)
        ensures
            r == ((self@ & other@) == other@),
    {
        (self.bits & other.bits) == other.bits
    }

    /// Returns the bitwise NOT of the bitmask.
    pub fn not(self) -> (r: Self)
        ensures
            r@ == !self@,
    {
        Self { bits: !self.bits }
    }

    /// Returns the bitwise AND of the bitmask.
    pub fn and(self, other: Self) -> (r: Self)
        ensures
            r@ == self@ & other@,
    {
        Self { bits: self.bits & other.bits }
    }

    /// Returns the bitwise OR of the bitmask.
    pub fn or(self, other: Self) -> (r: Self)
        ensures
            r@ == self@ | other@,
    {
        Self { bits: self.bits | other.bits }
    }

    /// Returns the bitwise XOR of the bitmask.
    pub fn xor(self, other: Self) -> (r: Self)
        ensures
            r@ == self@ ^ other@,
    {
        Self { bits: self.bits ^ other.bits }
    }
}

impl core::ops::Not for WKBVariant {
    type Output = Self;

    fn not(self) -> (r: Self)
        ensures
            r@ == !self@,
    {
        Self { bits: !self.bits }
    }
}

impl NotSpecImpl for WKBVariant {
    open spec fn obeys_not_spec() -> bool {
        true
    }

    open spec fn not_req(self) -> bool {
        true
    }

    closed spec fn not_spec(self) -> Self {
        WKBVariant { bits: !self.bits }
    }
}

impl core::ops::BitAnd for WKBVariant {
    type Output = Self;

    fn bitand(self, rhs: Self) -> (r: Self)
        ensures
            r@ == self@ & rhs@,
    {
        Self { bits: self.bits & rhs.bits }
    }
}

impl BitAndSpecImpl for WKBVariant {
    open spec fn obeys_bitand_spec() -> bool {
        true
    }

    open spec fn bitand_req(self, rhs: Self) -> bool {
        true
    }

    closed spec fn bitand_spec(self, rhs: Self) -> Self {
        WKBVariant { bits: self.bits & rhs.bits }
    }
}

impl core::ops::BitAndAssign for WKBVariant {
    fn bitand_assign(&mut self, rhs: Self)
        ensures
            final(self)@ == old(self)@ & rhs@,
    {
        self.bits = self.bits & rhs.bits;
    }
}

impl core::ops::BitOr for WKBVariant {
    type Output = Self;

    fn bitor(self, rhs: Self) -> (r: Self)
        ensures
            r@ == self@ | rhs@,
    {
        Self { bits: self.bits | rhs.bits }
    }
}

impl BitOrSpecImpl for WKBVariant {
    open spec fn obeys_bitor_spec() -> bool {
        true
    }

    open spec fn bitor_req(self, rhs: Self) -> bool {
        true
    }

    closed spec fn bitor_spec(self, rhs: Self) -> Self {
        WKBVariant { bits: self.bits | rhs.bits }
    }
}

impl core::ops::BitOrAssign for WKBVariant {
    fn bitor_assign(&mut self, rhs: Self)
        ensures
            final(self)@ == old(self)@ | rhs@,
    {
        self.bits = self.bits | rhs.bits;
    }
}

impl core::ops::BitXor for WKBVariant {
    type Output = Self;

    fn bitxor(self, rhs: Self) -> (r: Self)
        ensures
            r@ == self@ ^ rhs@,
    {
        Self { bits: self.bits ^ rhs.bits }
    }
}

impl BitXorSpecImpl for WKBVariant {
    open spec fn obeys_bitxor_spec() -> bool {
        true
    }

    open spec fn bitxor_req(self, rhs: Self) -> bool {
        true
    }

    closed spec fn bitxor_spec(self, rhs: Self) -> Self {
        WKBVariant { bits: self.bits ^ rhs.bits }
    }
}

impl core::ops::BitXorAssign for WKBVariant {
    fn bitxor_assign(&mut self, rhs: Self)
        ensures
            final(self)@ == old(self)@ ^ rhs@,
    {
        self.bits = self.bits ^ rhs.bits;
    }
}

impl From<u8> for WKBVariant {
    fn from(val: u8) -> (r: Self) {
        Self { bits: val }
    }
}

impl FromSpecImpl<u8> for WKBVariant {
    open spec fn obeys_from_spec() -> bool {
        true
    }

    closed spec fn from_spec(v: u8) -> Self {
        WKBVariant { bits: v }
    }
}

impl From<WKBVariant> for u8 {
    fn from(val: WKBVariant) -> (r: u8) {
        val.bits
    }
}

impl FromSpecImpl<WKBVariant> for u8 {
    open spec fn obeys_from_spec() -> bool {
        true
    }

    open spec fn from_spec(v: WKBVariant) -> u8 {
        v@
    }
}

/// A mask built from a byte holds that byte.
pub broadcast proof fn lemma_from_u8_view(v: u8)
    ensures
        #[trigger] <WKBVariant as FromSpec<u8>>::from_spec(v)@ == v,
{
}

impl PartialEq<u8> for WKBVariant {
    fn eq(&self, other: &u8) -> (r: bool)
        ensures
            r == (self@ == *other),
    {
        self.bits == *other
    }
}

impl PartialEqSpecImpl<u8> for WKBVariant {
    open spec fn obeys_eq_spec() -> bool {
        true
    }

    open spec fn eq_spec(&self, other: &u8) -> bool {
        self@ == *other
    }
}

} // verus!

verus! {

/// `contains` is a partial order on masks: every mask contains itself, and
/// containment is transitive and antisymmetric.
pub proof fn law_contains_partial_order(a: WKBVariant, b: WKBVariant, c: WKBVariant)
    ensures
        a@ & a@ == a@,
        (a@ & b@) == b@ && (b@ & c@) == c@ ==> (a@ & c@) == c@,
        (a@ & b@) == b@ && (b@ & a@) == a@ ==> a == b,
{
    let (x, y, z) = (a@, b@, c@);
    assert(x & x == x) by (bit_vector);
    assert((x & y) == y && (y & z) == z ==> (x & z) == z) by (bit_vector);
    assert((x & y) == y && (y & x) == x ==> x == y) by (bit_vector);
    lemma_view_injective(a, b);
}

/// The OR of two masks contains both of them, and is the smallest such
/// mask; the AND of two masks is contained in both of them.
pub proof fn law_or_and_bounds(a: WKBVariant, b: WKBVariant, c: WKBVariant)
    ensures
        ((a@ | b@) & a@) == a@,
        ((a@ | b@) & b@) == b@,
        (c@ & a@) == a@ && (c@ & b@) == b@ ==> (c@ & (a@ | b@)) == (a@ | b@),
        (a@ & (a@ & b@)) == (a@ & b@),
        (b@ & (a@ & b@)) == (a@ & b@),
{
    let (x, y, z) = (a@, b@, c@);
    assert(((x | y) & x) == x) by (bit_vector);
    assert(((x | y) & y) == y) by (bit_vector);
    assert((z & x) == x && (z & y) == y ==> (z & (x | y)) == (x | y)) by (bit_vector);
    assert((x & (x & y)) == (x & y)) by (bit_vector);
    assert((y & (x & y)) == (x & y)) by (bit_vector);
}

/// Every mask is contained in `all_bits` and contains `none`; a mask and
/// its NOT share no bit and together make up `all_bits`.
pub proof fn law_bounds_and_complement(a: WKBVariant)
    ensures
        (0xffu8 & a@) == a@,
        (a@ & 0u8) == 0u8,
        (a@ & !a@) == 0u8,
        (a@ | !a@) == 0xffu8,
        !(!a@) == a@,
{
    let x = a@;
    assert((0xffu8 & x) == x) by (bit_vector);
    assert((x & 0u8) == 0u8) by (bit_vector);
    assert((x & !x) == 0u8) by (bit_vector);
    assert((x | !x) == 0xffu8) by (bit_vector);
    assert(!(!x) == x) by (bit_vector);
}

/// De Morgan's laws for the NOT, AND and OR of masks.
pub proof fn law_de_morgan(a: WKBVariant, b: WKBVariant)
    ensures
        !(a@ & b@) == (!a@ | !b@),
        !(a@ | b@) == (!a@ & !b@),
{
    let (x, y) = (a@, b@);
    assert(!(x & y) == (!x | !y)) by (bit_vector);
    assert(!(x | y) == (!x & !y)) by (bit_vector);
}

/// XOR with a mask undoes itself, and a mask XOR itself is empty.
pub proof fn law_xor_involution(a: WKBVariant, b: WKBVariant)
    ensures
        ((a@ ^ b@) ^ b@) == a@,
        (a@ ^ a@) == 0u8,
        (a@ ^ b@) == (b@ ^ a@),
{
    let (x, y) = (a@, b@);
    assert(((x ^ y) ^ y) == x) by (bit_vector);
    assert((x ^ x) == 0u8) by (bit_vector);
    assert((x ^ y) == (y ^ x)) by (bit_vector);
}

/// Truncating keeps exactly the flag bits: it is idempotent, its result is
/// contained in `all_flags`, and it leaves a mask unchanged exactly when the
/// mask has no bit outside the flags.
pub proof fn law_truncate(a: WKBVariant)
    ensures
        ((a@ & all_flags_bits()) & all_flags_bits()) == (a@ & all_flags_bits()),
        (all_flags_bits() & (a@ & all_flags_bits())) == (a@ & all_flags_bits()),
        (a@ & all_flags_bits()) == a@ <==> (a@ & !all_flags_bits()) == 0u8,
{
    let x = a@;
    let f = all_flags_bits();
    assert(((x & f) & f) == (x & f)) by (bit_vector);
    assert((f & (x & f)) == (x & f)) by (bit_vector);
    assert((x & f) == x <==> (x & !f) == 0u8) by (bit_vector);
}

/// A mask intersects a non-empty mask exactly when the other intersects it;
/// every mask intersects `none`, and a non-empty mask intersects itself.
pub proof fn law_intersects(a: WKBVariant, b: WKBVariant)
    ensures
        a@ != 0u8 && b@ != 0u8 ==> (((a@ & b@) != 0u8 || b@ == 0u8) == ((b@ & a@) != 0u8 || a@
            == 0u8)),
        a@ != 0u8 ==> (a@ & a@) != 0u8,
        (a@ & b@) == b@ && b@ != 0u8 ==> (a@ & b@) != 0u8,
{
    let (x, y) = (a@, b@);
    assert((x & y) == (y & x)) by (bit_vector);
    assert(x != 0u8 ==> (x & x) != 0u8) by (bit_vector);
}

/// Converting a byte to a mask and back gives the byte again, and the
/// other way round.
pub proof fn law_u8_round_trip(v: u8, a: WKBVariant)
    ensures
        <u8 as FromSpec<WKBVariant>>::from_spec(<WKBVariant as FromSpec<u8>>::from_spec(v)) == v,
        <WKBVariant as FromSpec<u8>>::from_spec(<u8 as FromSpec<WKBVariant>>::from_spec(a)) == a,
{
    lemma_from_u8_view(v);
    lemma_from_u8_view(a@);
    lemma_view_injective(<WKBVariant as FromSpec<u8>>::from_spec(a@), a);
}

/// Comparing a mask with a byte is equality of bits: the mask equals the
/// byte exactly when its bits are that byte, so a mask that holds more bits
/// than the byte is not equal to it.
pub proof fn law_eq_u8_is_bits_equality(a: WKBVariant, v: u8)
    ensures
        <WKBVariant as PartialEqSpec<u8>>::obeys_eq_spec(),
        <WKBVariant as PartialEqSpec<u8>>::eq_spec(&a, &v) <==> a@ == v,
        <WKBVariant as PartialEqSpec<u8>>::eq_spec(&a, &v) <==> <u8 as FromSpec<
            WKBVariant,
        >>::from_spec(a) == v,
        <WKBVariant as PartialEqSpec<u8>>::eq_spec(&a, &a@),
        v != a@ ==> !<WKBVariant as PartialEqSpec<u8>>::eq_spec(&a, &v),
{
}

} // verus!
