use vstd::arithmetic::div_mod::{lemma_basic_div, lemma_div_by_self};
use crate::text::{int_text, int_to_text};
use vstd::prelude::*;

verus! {

/// Identifies an attribute type (for example `Health` or `Mana`).
#[derive(Debug, Clone, Copy, PartialEq, Eq, Hash, Structural)]
pub struct AttributeTypeId(pub u64);

/// The absolute value of an integer.
pub open spec fn int_abs(x: int) -> int {
    if x < 0 {
        -x
    } else {
        x
    }
}

/// Division of a value by a positive divisor, rounding towards zero.
pub open spec fn trunc_div_pos(a: int, d: int) -> int {
    if a >= 0 {
        a / d
    } else {
        -((-a) / d)
    }
}

/// Remainder of a value by a positive divisor, with the sign of the dividend.
pub open spec fn trunc_rem_pos(a: int, d: int) -> int {
    if a >= 0 {
        a % d
    } else {
        -((-a) % d)
    }
}

/// Integer division as Rust's `/` computes it: the quotient rounded towards zero.
pub open spec fn trunc_div(a: int, b: int) -> int {
    if b > 0 {
        trunc_div_pos(a, b)
    } else {
        -trunc_div_pos(a, -b)
    }
}

/// Integer remainder as Rust's `%` computes it: the sign follows the dividend.
pub open spec fn trunc_rem(a: int, b: int) -> int {
    trunc_rem_pos(a, int_abs(b))
}

/// The numeric type that an attribute holds.
///
/// Every value has a mathematical integer view; the arithmetic operations
/// behave as Rust's operators do on values whose result is representable.
pub trait Value: Copy + Sized {
    /// The mathematical value.
    spec fn to_int(self) -> int;

    /// The smallest representable value.
    spec fn min_int() -> int;

    /// The largest representable value.
    spec fn max_int() -> int;

    /// Whether an integer is representable.
    open spec fn in_range(x: int) -> bool {
        Self::min_int() <= x <= Self::max_int()
    }

    proof fn lemma_range(self)
        ensures
            Self::min_int() <= self.to_int() <= Self::max_int(),
            Self::in_range(self.to_int()),
    ;

    proof fn lemma_injective(self, other: Self)
        ensures
            self.to_int() == other.to_int() ==> self == other,
    ;

    fn zero() -> (r: Self)
        ensures
            r.to_int() == 0,
    ;

    fn one() -> (r: Self)
        ensures
            r.to_int() == 1,
    ;

    /// The value as `Display` writes it, in decimal.
    fn to_text(self) -> (r: String)
        ensures
            r@ == int_text(self.to_int()),
    ;

    /// The smallest representable value.
    fn min_value() -> (r: Self)
        ensures
            r.to_int() == Self::min_int(),
    ;

    /// The largest representable value.
    fn max_value() -> (r: Self)
        ensures
            r.to_int() == Self::max_int(),
    ;

    fn lt_value(self, other: Self) -> (r: bool)
        ensures
            r == (self.to_int() < other.to_int()),
    ;

    fn le_value(self, other: Self) -> (r: bool)
        ensures
            r == (self.to_int() <= other.to_int()),
    ;

    fn eq_value(self, other: Self) -> (r: bool)
        ensures
            r == (self.to_int() == other.to_int()),
    ;

    fn add_value(self, other: Self) -> (r: Self)
        requires
            Self::in_range(self.to_int() + other.to_int()),
        ensures
            r.to_int() == self.to_int() + other.to_int(),
    ;

    fn sub_value(self, other: Self) -> (r: Self)
        requires
            Self::in_range(self.to_int() - other.to_int()),
        ensures
            r.to_int() == self.to_int() - other.to_int(),
    ;

    fn mul_value(self, other: Self) -> (r: Self)
        requires
            Self::in_range(self.to_int() * other.to_int()),
        ensures
            r.to_int() == self.to_int() * other.to_int(),
    ;

    fn div_value(self, other: Self) -> (r: Self)
        requires
            other.to_int() != 0,
            Self::in_range(trunc_div(self.to_int(), other.to_int())),
        ensures
            r.to_int() == trunc_div(self.to_int(), other.to_int()),
    ;

    fn rem_value(self, other: Self) -> (r: Self)
        requires
            other.to_int() != 0,
            Self::in_range(trunc_div(self.to_int(), other.to_int())),
        ensures
            r.to_int() == trunc_rem(self.to_int(), other.to_int()),
    ;
}


/// The values of one attribute on an entity.
#[derive(Clone, Copy)]
pub struct AttributeSnapshot<P> {
    pub id: AttributeTypeId,
    pub base_value: P,
    pub current_value: P,
}

/// The first snapshot with the given attribute id.
pub open spec fn spec_find<P>(
    attrs: Seq<AttributeSnapshot<P>>,
    id: AttributeTypeId,
) -> Option<AttributeSnapshot<P>>
    decreases attrs.len(),
{
    if attrs.len() == 0 {
        None
    } else if attrs[0].id == id {
        Some(attrs[0])
    } else {
        spec_find(attrs.drop_first(), id)
    }
}


/// The position of the first snapshot with the given attribute id.
pub open spec fn spec_find_index<P>(attrs: Seq<AttributeSnapshot<P>>, id: AttributeTypeId) -> Option<int>
    decreases attrs.len(),
{
    if attrs.len() == 0 {
        None
    } else if attrs[0].id == id {
        Some(0)
    } else {
        match spec_find_index(attrs.drop_first(), id) {
            Some(i) => Some(i + 1),
            None => None,
        }
    }
}

/// The first snapshot with an id is the one at its first position.
pub proof fn lemma_find_index<P>(attrs: Seq<AttributeSnapshot<P>>, id: AttributeTypeId)
    ensures
        match spec_find_index(attrs, id) {
            Some(i) => 0 <= i < attrs.len() && attrs[i].id == id && spec_find(attrs, id) == Some(
                attrs[i],
            ),
            None => spec_find(attrs, id) is None,
        },
    decreases attrs.len(),
{
    if attrs.len() > 0 {
        lemma_find_index(attrs.drop_first(), id);
    }
}

/// What the library reads of an entity: its attributes, the components
/// (by id) it holds, and the stack count when it is an effect.
pub struct AttributesRef<P> {
    pub attributes: Vec<AttributeSnapshot<P>>,
    pub components: Vec<u64>,
    pub stacks: Option<u32>,
}

impl<P: Copy> AttributesRef<P> {
    /// The attribute with the given id, if the entity has it.
    pub open spec fn attribute(&self, id: AttributeTypeId) -> Option<AttributeSnapshot<P>> {
        spec_find(self.attributes@, id)
    }

    /// Whether the entity holds the component with the given id.
    pub open spec fn has_component(&self, component: u64) -> bool {
        self.components@.contains(component)
    }

    /// Looks up an attribute by id.
    pub fn get(&self, id: AttributeTypeId) -> (r: Option<AttributeSnapshot<P>>)
        ensures
            r == self.attribute(id),
    {
        let n = self.attributes.len();
        let mut i: usize = 0;
        assert(self.attributes@.subrange(0, n as int) =~= self.attributes@);
        while i < n
            invariant
                n == self.attributes@.len(),
                i <= n,
                spec_find(self.attributes@, id) == spec_find(
                    self.attributes@.subrange(i as int, n as int),
                    id,
                ),
            decreases n - i,
        {
            let a = self.attributes[i];
            assert(self.attributes@.subrange(i as int, n as int)[0] == a);
            if a.id == id {
                return Some(a);
            }
            assert(self.attributes@.subrange(i as int, n as int).drop_first() =~= self.attributes@.subrange(
                (i + 1) as int,
                n as int,
            ));
            i = i + 1;
        }
        assert(self.attributes@.subrange(n as int, n as int).len() == 0);
        None
    }

    /// The position of an attribute in the entity's list.
    pub fn find_index(&self, id: AttributeTypeId) -> (r: Option<usize>)
        ensures
            match r {
                Some(i) => spec_find_index(self.attributes@, id) == Some(i as int),
                None => spec_find_index(self.attributes@, id) is None,
            },
    {
        let n = self.attributes.len();
        let mut i: usize = 0;
        assert(self.attributes@.subrange(0, n as int) =~= self.attributes@);
        while i < n
            invariant
                n == self.attributes@.len(),
                i <= n,
                spec_find_index(self.attributes@, id) == match spec_find_index(
                    self.attributes@.subrange(i as int, n as int),
                    id,
                ) {
                    Some(k) => Some(k + i),
                    None => None::<int>,
                },
            decreases n - i,
        {
            assert(self.attributes@.subrange(i as int, n as int)[0] == self.attributes@[i as int]);
            if self.attributes[i].id == id {
                return Some(i);
            }
            assert(self.attributes@.subrange(i as int, n as int).drop_first() =~= self.attributes@.subrange(
                (i + 1) as int,
                n as int,
            ));
            i = i + 1;
        }
        None
    }

    /// Whether the entity holds the component with the given id.
    pub fn contains(&self, component: u64) -> (r: bool)
        ensures
            r == self.has_component(component),
    {
        let n = self.components.len();
        let mut i: usize = 0;
        while i < n
            invariant
                n == self.components@.len(),
                i <= n,
                forall|j: int| 0 <= j < i ==> self.components@[j] != component,
            decreases n - i,
        {
            if self.components[i] == component {
                assert(self.components@[i as int] == component);
                return true;
            }
            i = i + 1;
        }
        false
    }
}

impl Value for u8 {
    open spec fn to_int(self) -> int {
        self as int
    }

    open spec fn min_int() -> int {
        u8::MIN as int
    }

    open spec fn max_int() -> int {
        u8::MAX as int
    }

    proof fn lemma_range(self) {
    }

    proof fn lemma_injective(self, other: Self) {
    }

    fn zero() -> (r: Self) {
        0
    }

    fn one() -> (r: Self) {
        1
    }

    fn to_text(self) -> (r: String) {
        int_to_text(self as i128)
    }

    fn min_value() -> (r: Self) {
        u8::MIN
    }

    fn max_value() -> (r: Self) {
        u8::MAX
    }

    fn lt_value(self, other: Self) -> (r: bool) {
        self < other
    }

    fn le_value(self, other: Self) -> (r: bool) {
        self <= other
    }

    fn eq_value(self, other: Self) -> (r: bool) {
        self == other
    }

    fn add_value(self, other: Self) -> (r: Self) {
        self + other
    }

    fn sub_value(self, other: Self) -> (r: Self) {
        self - other
    }

    fn mul_value(self, other: Self) -> (r: Self) {
        self * other
    }

    fn div_value(self, other: Self) -> (r: Self) {
        self / other
    }

    fn rem_value(self, other: Self) -> (r: Self) {
        self % other
    }
}

impl Value for u16 {
    open spec fn to_int(self) -> int {
        self as int
    }

    open spec fn min_int() -> int {
        u16::MIN as int
    }

    open spec fn max_int() -> int {
        u16::MAX as int
    }

    proof fn lemma_range(self) {
    }

    proof fn lemma_injective(self, other: Self) {
    }

    fn zero() -> (r: Self) {
        0
    }

    fn one() -> (r: Self) {
        1
    }

    fn to_text(self) -> (r: String) {
        int_to_text(self as i128)
    }

    fn min_value() -> (r: Self) {
        u16::MIN
    }

    fn max_value() -> (r: Self) {
        u16::MAX
    }

    fn lt_value(self, other: Self) -> (r: bool) {
        self < other
    }

    fn le_value(self, other: Self) -> (r: bool) {
        self <= other
    }

    fn eq_value(self, other: Self) -> (r: bool) {
        self == other
    }

    fn add_value(self, other: Self) -> (r: Self) {
        self + other
    }

    fn sub_value(self, other: Self) -> (r: Self) {
        self - other
    }

    fn mul_value(self, other: Self) -> (r: Self) {
        self * other
    }

    fn div_value(self, other: Self) -> (r: Self) {
        self / other
    }

    fn rem_value(self, other: Self) -> (r: Self) {
        self % other
    }
}

impl Value for u32 {
    open spec fn to_int(self) -> int {
        self as int
    }

    open spec fn min_int() -> int {
        u32::MIN as int
    }

    open spec fn max_int() -> int {
        u32::MAX as int
    }

    proof fn lemma_range(self) {
    }

    proof fn lemma_injective(self, other: Self) {
    }

    fn zero() -> (r: Self) {
        0
    }

    fn one() -> (r: Self) {
        1
    }

    fn to_text(self) -> (r: String) {
        int_to_text(self as i128)
    }

    fn min_value() -> (r: Self) {
        u32::MIN
    }

    fn max_value() -> (r: Self) {
        u32::MAX
    }

    fn lt_value(self, other: Self) -> (r: bool) {
        self < other
    }

    fn le_value(self, other: Self) -> (r: bool) {
        self <= other
    }

    fn eq_value(self, other: Self) -> (r: bool) {
        self == other
    }

    fn add_value(self, other: Self) -> (r: Self) {
        self + other
    }

    fn sub_value(self, other: Self) -> (r: Self) {
        self - other
    }

    fn mul_value(self, other: Self) -> (r: Self) {
        self * other
    }

    fn div_value(self, other: Self) -> (r: Self) {
        self / other
    }

    fn rem_value(self, other: Self) -> (r: Self) {
        self % other
    }
}

impl Value for u64 {
    open spec fn to_int(self) -> int {
        self as int
    }

    open spec fn min_int() -> int {
        u64::MIN as int
    }

    open spec fn max_int() -> int {
        u64::MAX as int
    }

    proof fn lemma_range(self) {
    }

    proof fn lemma_injective(self, other: Self) {
    }

    fn zero() -> (r: Self) {
        0
    }

    fn one() -> (r: Self) {
        1
    }

    fn to_text(self) -> (r: String) {
        int_to_text(self as i128)
    }

    fn min_value() -> (r: Self) {
        u64::MIN
    }

    fn max_value() -> (r: Self) {
        u64::MAX
    }

    fn lt_value(self, other: Self) -> (r: bool) {
        self < other
    }

    fn le_value(self, other: Self) -> (r: bool) {
        self <= other
    }

    fn eq_value(self, other: Self) -> (r: bool) {
        self == other
    }

    fn add_value(self, other: Self) -> (r: Self) {
        self + other
    }

    fn sub_value(self, other: Self) -> (r: Self) {
        self - other
    }

    fn mul_value(self, other: Self) -> (r: Self) {
        self * other
    }

    fn div_value(self, other: Self) -> (r: Self) {
        self / other
    }

    fn rem_value(self, other: Self) -> (r: Self) {
        self % other
    }
}

impl Value for i8 {
    open spec fn to_int(self) -> int {
        self as int
    }

    open spec fn min_int() -> int {
        i8::MIN as int
    }

    open spec fn max_int() -> int {
        i8::MAX as int
    }

    proof fn lemma_range(self) {
    }

    proof fn lemma_injective(self, other: Self) {
    }

    fn zero() -> (r: Self) {
        0
    }

    fn one() -> (r: Self) {
        1
    }

    fn to_text(self) -> (r: String) {
        int_to_text(self as i128)
    }

    fn min_value() -> (r: Self) {
        i8::MIN
    }

    fn max_value() -> (r: Self) {
        i8::MAX
    }

    fn lt_value(self, other: Self) -> (r: bool) {
        self < other
    }

    fn le_value(self, other: Self) -> (r: bool) {
        self <= other
    }

    fn eq_value(self, other: Self) -> (r: bool) {
        self == other
    }

    fn add_value(self, other: Self) -> (r: Self) {
        self + other
    }

    fn sub_value(self, other: Self) -> (r: Self) {
        self - other
    }

    fn mul_value(self, other: Self) -> (r: Self) {
        self * other
    }

    fn div_value(self, other: Self) -> (r: Self) {
        if other > 0 {
            let q = self / other;
            assert(q == trunc_div_pos(self as int, other as int));
            assert(q == trunc_div(self as int, other as int));
            q
        } else if other == i8::MIN {
            if self == i8::MIN {
                proof {
                    lemma_div_by_self(-(other as int));
                }
                assert(trunc_div(self as int, other as int) == 1);
                1
            } else {
                proof {
                    if self >= 0 {
                        lemma_basic_div(self as int, -(other as int));
                    } else {
                        lemma_basic_div(-(self as int), -(other as int));
                    }
                }
                0
            }
        } else {
            let q = self / (-other);
            assert(q == trunc_div_pos(self as int, -(other as int)));
            assert(-q == trunc_div(self as int, other as int));
            -q
        }
    }

    fn rem_value(self, other: Self) -> (r: Self) {
        if other > 0 {
            self % other
        } else if other == i8::MIN {
            if self == i8::MIN { 0 } else { self }
        } else {
            self % (-other)
        }
    }
}

impl Value for i16 {
    open spec fn to_int(self) -> int {
        self as int
    }

    open spec fn min_int() -> int {
        i16::MIN as int
    }

    open spec fn max_int() -> int {
        i16::MAX as int
    }

    proof fn lemma_range(self) {
    }

    proof fn lemma_injective(self, other: Self) {
    }

    fn zero() -> (r: Self) {
        0
    }

    fn one() -> (r: Self) {
        1
    }

    fn to_text(self) -> (r: String) {
        int_to_text(self as i128)
    }

    fn min_value() -> (r: Self) {
        i16::MIN
    }

    fn max_value() -> (r: Self) {
        i16::MAX
    }

    fn lt_value(self, other: Self) -> (r: bool) {
        self < other
    }

    fn le_value(self, other: Self) -> (r: bool) {
        self <= other
    }

    fn eq_value(self, other: Self) -> (r: bool) {
        self == other
    }

    fn add_value(self, other: Self) -> (r: Self) {
        self + other
    }

    fn sub_value(self, other: Self) -> (r: Self) {
        self - other
    }

    fn mul_value(self, other: Self) -> (r: Self) {
        self * other
    }

    fn div_value(self, other: Self) -> (r: Self) {
        if other > 0 {
            let q = self / other;
            assert(q == trunc_div_pos(self as int, other as int));
            assert(q == trunc_div(self as int, other as int));
            q
        } else if other == i16::MIN {
            if self == i16::MIN {
                proof {
                    lemma_div_by_self(-(other as int));
                }
                assert(trunc_div(self as int, other as int) == 1);
                1
            } else {
                proof {
                    if self >= 0 {
                        lemma_basic_div(self as int, -(other as int));
                    } else {
                        lemma_basic_div(-(self as int), -(other as int));
                    }
                }
                0
            }
        } else {
            let q = self / (-other);
            assert(q == trunc_div_pos(self as int, -(other as int)));
            assert(-q == trunc_div(self as int, other as int));
            -q
        }
    }

    fn rem_value(self, other: Self) -> (r: Self) {
        if other > 0 {
            self % other
        } else if other == i16::MIN {
            if self == i16::MIN { 0 } else { self }
        } else {
            self % (-other)
        }
    }
}

impl Value for i32 {
    open spec fn to_int(self) -> int {
        self as int
    }

    open spec fn min_int() -> int {
        i32::MIN as int
    }

    open spec fn max_int() -> int {
        i32::MAX as int
    }

    proof fn lemma_range(self) {
    }

    proof fn lemma_injective(self, other: Self) {
    }

    fn zero() -> (r: Self) {
        0
    }

    fn one() -> (r: Self) {
        1
    }

    fn to_text(self) -> (r: String) {
        int_to_text(self as i128)
    }

    fn min_value() -> (r: Self) {
        i32::MIN
    }

    fn max_value() -> (r: Self) {
        i32::MAX
    }

    fn lt_value(self, other: Self) -> (r: bool) {
        self < other
    }

    fn le_value(self, other: Self) -> (r: bool) {
        self <= other
    }

    fn eq_value(self, other: Self) -> (r: bool) {
        self == other
    }

    fn add_value(self, other: Self) -> (r: Self) {
        self + other
    }

    fn sub_value(self, other: Self) -> (r: Self) {
        self - other
    }

    fn mul_value(self, other: Self) -> (r: Self) {
        self * other
    }

    fn div_value(self, other: Self) -> (r: Self) {
        if other > 0 {
            let q = self / other;
            assert(q == trunc_div_pos(self as int, other as int));
            assert(q == trunc_div(self as int, other as int));
            q
        } else if other == i32::MIN {
            if self == i32::MIN {
                proof {
                    lemma_div_by_self(-(other as int));
                }
                assert(trunc_div(self as int, other as int) == 1);
                1
            } else {
                proof {
                    if self >= 0 {
                        lemma_basic_div(self as int, -(other as int));
                    } else {
                        lemma_basic_div(-(self as int), -(other as int));
                    }
                }
                0
            }
        } else {
            let q = self / (-other);
            assert(q == trunc_div_pos(self as int, -(other as int)));
            assert(-q == trunc_div(self as int, other as int));
            -q
        }
    }

    fn rem_value(self, other: Self) -> (r: Self) {
        if other > 0 {
            self % other
        } else if other == i32::MIN {
            if self == i32::MIN { 0 } else { self }
        } else {
            self % (-other)
        }
    }
}

impl Value for i64 {
    open spec fn to_int(self) -> int {
        self as int
    }

    open spec fn min_int() -> int {
        i64::MIN as int
    }

    open spec fn max_int() -> int {
        i64::MAX as int
    }

    proof fn lemma_range(self) {
    }

    proof fn lemma_injective(self, other: Self) {
    }

    fn zero() -> (r: Self) {
        0
    }

    fn one() -> (r: Self) {
        1
    }

    fn to_text(self) -> (r: String) {
        int_to_text(self as i128)
    }

    fn min_value() -> (r: Self) {
        i64::MIN
    }

    fn max_value() -> (r: Self) {
        i64::MAX
    }

    fn lt_value(self, other: Self) -> (r: bool) {
        self < other
    }

    fn le_value(self, other: Self) -> (r: bool) {
        self <= other
    }

    fn eq_value(self, other: Self) -> (r: bool) {
        self == other
    }

    fn add_value(self, other: Self) -> (r: Self) {
        self + other
    }

    fn sub_value(self, other: Self) -> (r: Self) {
        self - other
    }

    fn mul_value(self, other: Self) -> (r: Self) {
        self * other
    }

    fn div_value(self, other: Self) -> (r: Self) {
        if other > 0 {
            let q = self / other;
            assert(q == trunc_div_pos(self as int, other as int));
            assert(q == trunc_div(self as int, other as int));
            q
        } else if other == i64::MIN {
            if self == i64::MIN {
                proof {
                    lemma_div_by_self(-(other as int));
                }
                assert(trunc_div(self as int, other as int) == 1);
                1
            } else {
                proof {
                    if self >= 0 {
                        lemma_basic_div(self as int, -(other as int));
                    } else {
                        lemma_basic_div(-(self as int), -(other as int));
                    }
                }
                0
            }
        } else {
            let q = self / (-other);
            assert(q == trunc_div_pos(self as int, -(other as int)));
            assert(-q == trunc_div(self as int, other as int));
            -q
        }
    }

    fn rem_value(self, other: Self) -> (r: Self) {
        if other > 0 {
            self % other
        } else if other == i64::MIN {
            if self == i64::MIN { 0 } else { self }
        } else {
            self % (-other)
        }
    }
}


/// Looking up an attribute finds the first snapshot with its id, and nothing when no
/// snapshot has it.
pub proof fn lemma_find_meaning<P>(attrs: Seq<AttributeSnapshot<P>>, id: AttributeTypeId)
    ensures
        spec_find(attrs, id) matches Some(a) ==> exists|i: int|
            0 <= i < attrs.len() && #[trigger] attrs[i] == a && a.id == id && forall|j: int|
                0 <= j < i ==> (#[trigger] attrs[j]).id != id,
        spec_find(attrs, id) is None ==> forall|i: int| 0 <= i < attrs.len() ==> (#[trigger] attrs[i]).id != id,
    decreases attrs.len(),
{
    if attrs.len() > 0 {
        lemma_find_meaning(attrs.drop_first(), id);
        if attrs[0].id != id {
            if let Some(a) = spec_find(attrs, id) {
                let i = choose|i: int|
                    0 <= i < attrs.drop_first().len() && #[trigger] attrs.drop_first()[i] == a
                        && a.id == id && forall|j: int|
                        0 <= j < i ==> (#[trigger] attrs.drop_first()[j]).id != id;
                assert(attrs[i + 1] == a);
                assert forall|j: int| 0 <= j < i + 1 implies (#[trigger] attrs[j]).id != id by {
                    if j > 0 {
                        assert(attrs[j] == attrs.drop_first()[j - 1]);
                    }
                }
            } else {
                assert forall|i: int| 0 <= i < attrs.len() implies (#[trigger] attrs[i]).id != id by {
                    if i > 0 {
                        assert(attrs[i] == attrs.drop_first()[i - 1]);
                    }
                }
            }
        } else {
            assert(attrs[0] == spec_find(attrs, id)->Some_0);
        }
    }
}

} // verus!
