//! Access and property flags: for each of nine domains, a 16-bit mask read
//! as the list of the flags it sets, in ascending bit order.

use vstd::prelude::*;
use crate::utils::bitmask_matches;

verus! {

/// Base trait for all flag types
pub trait Flags {
    type AccessFlagType;

    /// Fetch all flags from a value
    fn from_u16(value: u16) -> Vec<Self::AccessFlagType>;
}

/// `flag` alone if `mask` sets every bit of `bit`, else nothing.
pub open spec fn flag_if<T>(mask: u16, bit: u16, flag: T) -> Seq<T> {
    if mask & bit == bit {
        seq![flag]
    } else {
        Seq::empty()
    }
}

/// Appends `flag` when `value` sets every bit of `bit`.
fn push_if<T>(flags: &mut Vec<T>, value: u16, bit: u16, flag: T)
    ensures
        final(flags)@ == old(flags)@ + flag_if(value, bit, flag),
{
    if bitmask_matches(value, bit) {
        flags.push(flag);
        assert(flags@ =~= old(flags)@ + seq![flag]);
    } else {
        assert(flags@ =~= old(flags)@ + Seq::<T>::empty());
    }
}

/// Appending a possible flag adds it, and only it, to what a list contains.
proof fn lemma_contains_flag_if<T>(a: Seq<T>, mask: u16, bit: u16, flag: T, x: T)
    ensures
        (a + flag_if(mask, bit, flag)).contains(x) == (a.contains(x) || (mask & bit == bit && x
            == flag)),
{
    let s = a + flag_if(mask, bit, flag);
    if a.contains(x) {
        let i = choose|i: int| 0 <= i < a.len() && a[i] == x;
        assert(s[i] == x);
    }
    if mask & bit == bit && x == flag {
        assert(s[a.len() as int] == x);
    }
    if s.contains(x) {
        let i = choose|i: int| 0 <= i < s.len() && s[i] == x;
        if i < a.len() {
            assert(a[i] == x);
        }
    }
}


/// Class access and property flags
#[derive(Clone, Copy, Debug, PartialEq, Eq, Structural)]
pub enum ClassAccessFlags {
    /// Declared public; may be accessed from outside its package
    AccPublic,

    /// Declared final; no subclasses allowed
    AccFinal,

    /// Treat superclass methods specially when invoked by the `invokespecial` instruction
    AccSuper,

    /// Is an interface, not a class
    AccInterface,

    /// Declared abstract; must not be instantiated
    AccAbstract,

    /// Declared synthetic; not present in the source code
    AccSynthetic,

    /// Declared as an annotation interface
    AccAnnotation,

    /// Declared as an enum class
    AccEnum,

    /// Is a module, not a class or interface
    AccModule,
}

/// Every bit that the class domain gives a meaning to.
pub const CLASS_KNOWN_BITS: u16 = 0xF631;

impl ClassAccessFlags {
    /// The mask bit that stands for this flag.
    pub open spec fn spec_bit(self) -> u16 {
        match self {
            ClassAccessFlags::AccPublic => 0x0001,
            ClassAccessFlags::AccFinal => 0x0010,
            ClassAccessFlags::AccSuper => 0x0020,
            ClassAccessFlags::AccInterface => 0x0200,
            ClassAccessFlags::AccAbstract => 0x0400,
            ClassAccessFlags::AccSynthetic => 0x1000,
            ClassAccessFlags::AccAnnotation => 0x2000,
            ClassAccessFlags::AccEnum => 0x4000,
            ClassAccessFlags::AccModule => 0x8000,
        }
    }
}

/// The flags that `mask` sets, in ascending bit order; other bits are skipped.
#[verifier::opaque]
pub open spec fn class_flags_of(mask: u16) -> Seq<ClassAccessFlags> {
    Seq::empty()
        + flag_if(mask, 0x0001, ClassAccessFlags::AccPublic)
        + flag_if(mask, 0x0010, ClassAccessFlags::AccFinal)
        + flag_if(mask, 0x0020, ClassAccessFlags::AccSuper)
        + flag_if(mask, 0x0200, ClassAccessFlags::AccInterface)
        + flag_if(mask, 0x0400, ClassAccessFlags::AccAbstract)
        + flag_if(mask, 0x1000, ClassAccessFlags::AccSynthetic)
        + flag_if(mask, 0x2000, ClassAccessFlags::AccAnnotation)
        + flag_if(mask, 0x4000, ClassAccessFlags::AccEnum)
        + flag_if(mask, 0x8000, ClassAccessFlags::AccModule)
}

/// The bitwise OR of the masks of the flags in `flags`.
pub open spec fn class_mask_of(flags: Seq<ClassAccessFlags>) -> u16 {
    (if flags.contains(ClassAccessFlags::AccPublic) { 0x0001u16 } else { 0u16 })
        | (if flags.contains(ClassAccessFlags::AccFinal) { 0x0010u16 } else { 0u16 })
        | (if flags.contains(ClassAccessFlags::AccSuper) { 0x0020u16 } else { 0u16 })
        | (if flags.contains(ClassAccessFlags::AccInterface) { 0x0200u16 } else { 0u16 })
        | (if flags.contains(ClassAccessFlags::AccAbstract) { 0x0400u16 } else { 0u16 })
        | (if flags.contains(ClassAccessFlags::AccSynthetic) { 0x1000u16 } else { 0u16 })
        | (if flags.contains(ClassAccessFlags::AccAnnotation) { 0x2000u16 } else { 0u16 })
        | (if flags.contains(ClassAccessFlags::AccEnum) { 0x4000u16 } else { 0u16 })
        | (if flags.contains(ClassAccessFlags::AccModule) { 0x8000u16 } else { 0u16 })
}

impl Flags for ClassAccessFlags {
    type AccessFlagType = ClassAccessFlags;

    fn from_u16(value: u16) -> (r: Vec<ClassAccessFlags>)
        ensures
            r@ == class_flags_of(value),
    {
        let mut flags: Vec<ClassAccessFlags> = Vec::new();
        push_if(&mut flags, value, 0x0001, ClassAccessFlags::AccPublic);
        push_if(&mut flags, value, 0x0010, ClassAccessFlags::AccFinal);
        push_if(&mut flags, value, 0x0020, ClassAccessFlags::AccSuper);
        push_if(&mut flags, value, 0x0200, ClassAccessFlags::AccInterface);
        push_if(&mut flags, value, 0x0400, ClassAccessFlags::AccAbstract);
        push_if(&mut flags, value, 0x1000, ClassAccessFlags::AccSynthetic);
        push_if(&mut flags, value, 0x2000, ClassAccessFlags::AccAnnotation);
        push_if(&mut flags, value, 0x4000, ClassAccessFlags::AccEnum);
        push_if(&mut flags, value, 0x8000, ClassAccessFlags::AccModule);
        proof {
            reveal(class_flags_of);
        }
        flags
    }
}

/// A flag is among the decoded class flags exactly when the mask sets its bit.
pub proof fn lemma_class_flags_contains(mask: u16, flag: ClassAccessFlags)
    ensures
        class_flags_of(mask).contains(flag) == (mask & flag.spec_bit() == flag.spec_bit()),
{
    reveal(class_flags_of);
    let s0 = Seq::<ClassAccessFlags>::empty();
    assert(!s0.contains(flag));
    lemma_contains_flag_if(s0, mask, 0x0001, ClassAccessFlags::AccPublic, flag);
    let s1 = s0 + flag_if(mask, 0x0001, ClassAccessFlags::AccPublic);
    lemma_contains_flag_if(s1, mask, 0x0010, ClassAccessFlags::AccFinal, flag);
    let s2 = s1 + flag_if(mask, 0x0010, ClassAccessFlags::AccFinal);
    lemma_contains_flag_if(s2, mask, 0x0020, ClassAccessFlags::AccSuper, flag);
    let s3 = s2 + flag_if(mask, 0x0020, ClassAccessFlags::AccSuper);
    lemma_contains_flag_if(s3, mask, 0x0200, ClassAccessFlags::AccInterface, flag);
    let s4 = s3 + flag_if(mask, 0x0200, ClassAccessFlags::AccInterface);
    lemma_contains_flag_if(s4, mask, 0x0400, ClassAccessFlags::AccAbstract, flag);
    let s5 = s4 + flag_if(mask, 0x0400, ClassAccessFlags::AccAbstract);
    lemma_contains_flag_if(s5, mask, 0x1000, ClassAccessFlags::AccSynthetic, flag);
    let s6 = s5 + flag_if(mask, 0x1000, ClassAccessFlags::AccSynthetic);
    lemma_contains_flag_if(s6, mask, 0x2000, ClassAccessFlags::AccAnnotation, flag);
    let s7 = s6 + flag_if(mask, 0x2000, ClassAccessFlags::AccAnnotation);
    lemma_contains_flag_if(s7, mask, 0x4000, ClassAccessFlags::AccEnum, flag);
    let s8 = s7 + flag_if(mask, 0x4000, ClassAccessFlags::AccEnum);
    lemma_contains_flag_if(s8, mask, 0x8000, ClassAccessFlags::AccModule, flag);
    let s9 = s8 + flag_if(mask, 0x8000, ClassAccessFlags::AccModule);
}

/// A mask whose only recognised class bit is the bit of `flag` decodes to `flag` alone,
/// whatever unrecognised bits it also sets.
pub proof fn lemma_class_single_flag(mask: u16, flag: ClassAccessFlags)
    requires
        mask & CLASS_KNOWN_BITS == flag.spec_bit(),
    ensures
        class_flags_of(mask) == seq![flag],
{
    reveal(class_flags_of);
    let b = flag.spec_bit();
    assert((mask & 0x0001 == 0x0001) == (b == 0x0001) && (mask & 0x0010 == 0x0010) == (b == 0x0010) && (mask & 0x0020 == 0x0020) == (b == 0x0020) && (mask & 0x0200 == 0x0200) == (b == 0x0200) && (mask & 0x0400 == 0x0400) == (b == 0x0400) && (mask & 0x1000 == 0x1000) == (b == 0x1000) && (mask & 0x2000 == 0x2000) == (b == 0x2000) && (mask & 0x4000 == 0x4000) == (b == 0x4000) && (mask & 0x8000 == 0x8000) == (b == 0x8000)) by (bit_vector)
        requires
            mask & 0xF631 == b,
            b == 0x0001 || b == 0x0010 || b == 0x0020 || b == 0x0200 || b == 0x0400 || b == 0x1000 || b == 0x2000 || b == 0x4000 || b == 0x8000;
    assert(class_flags_of(mask) =~= seq![flag]);
}

/// Decoding the OR of the masks of a decoded class flag list gives that list again.
pub proof fn lemma_class_flags_reencode(mask: u16)
    ensures
        class_flags_of(class_mask_of(class_flags_of(mask))) == class_flags_of(mask),
{
    lemma_class_flags_contains(mask, ClassAccessFlags::AccPublic);
    lemma_class_flags_contains(mask, ClassAccessFlags::AccFinal);
    lemma_class_flags_contains(mask, ClassAccessFlags::AccSuper);
    lemma_class_flags_contains(mask, ClassAccessFlags::AccInterface);
    lemma_class_flags_contains(mask, ClassAccessFlags::AccAbstract);
    lemma_class_flags_contains(mask, ClassAccessFlags::AccSynthetic);
    lemma_class_flags_contains(mask, ClassAccessFlags::AccAnnotation);
    lemma_class_flags_contains(mask, ClassAccessFlags::AccEnum);
    lemma_class_flags_contains(mask, ClassAccessFlags::AccModule);
    let m = class_mask_of(class_flags_of(mask));
    assert(m == (if mask & 0x0001 == 0x0001 { 0x0001u16 } else { 0u16 })
            | (if mask & 0x0010 == 0x0010 { 0x0010u16 } else { 0u16 })
            | (if mask & 0x0020 == 0x0020 { 0x0020u16 } else { 0u16 })
            | (if mask & 0x0200 == 0x0200 { 0x0200u16 } else { 0u16 })
            | (if mask & 0x0400 == 0x0400 { 0x0400u16 } else { 0u16 })
            | (if mask & 0x1000 == 0x1000 { 0x1000u16 } else { 0u16 })
            | (if mask & 0x2000 == 0x2000 { 0x2000u16 } else { 0u16 })
            | (if mask & 0x4000 == 0x4000 { 0x4000u16 } else { 0u16 })
            | (if mask & 0x8000 == 0x8000 { 0x8000u16 } else { 0u16 }));
    assert((m & 0x0001 == 0x0001) == (mask & 0x0001 == 0x0001) && (m & 0x0010 == 0x0010) == (mask & 0x0010 == 0x0010) && (m & 0x0020 == 0x0020) == (mask & 0x0020 == 0x0020) && (m & 0x0200 == 0x0200) == (mask & 0x0200 == 0x0200) && (m & 0x0400 == 0x0400) == (mask & 0x0400 == 0x0400) && (m & 0x1000 == 0x1000) == (mask & 0x1000 == 0x1000) && (m & 0x2000 == 0x2000) == (mask & 0x2000 == 0x2000) && (m & 0x4000 == 0x4000) == (mask & 0x4000 == 0x4000) && (m & 0x8000 == 0x8000) == (mask & 0x8000 == 0x8000)) by (bit_vector)
        requires
            m == (if mask & 0x0001 == 0x0001 { 0x0001u16 } else { 0u16 })
            | (if mask & 0x0010 == 0x0010 { 0x0010u16 } else { 0u16 })
            | (if mask & 0x0020 == 0x0020 { 0x0020u16 } else { 0u16 })
            | (if mask & 0x0200 == 0x0200 { 0x0200u16 } else { 0u16 })
            | (if mask & 0x0400 == 0x0400 { 0x0400u16 } else { 0u16 })
            | (if mask & 0x1000 == 0x1000 { 0x1000u16 } else { 0u16 })
            | (if mask & 0x2000 == 0x2000 { 0x2000u16 } else { 0u16 })
            | (if mask & 0x4000 == 0x4000 { 0x4000u16 } else { 0u16 })
            | (if mask & 0x8000 == 0x8000 { 0x8000u16 } else { 0u16 });
    reveal(class_flags_of);
}

/// Field access and property flags
#[derive(Clone, Copy, Debug, PartialEq, Eq, Structural)]
pub enum FieldAccessFlags {
    /// Declared public; may be accessed from outside its package
    AccPublic,

    /// Declared private; accessible only within the defining class and other classes belonging to the same nest [ยง5.4.4](https://docs.oracle.com/javase/specs/jvms/se17/html/jvms-5.html#jvms-5.4.4)
    AccPrivate,

    /// Declared protected; may be accessed within subclasses
    AccProtected,

    /// Declared static
    AccStatic,

    /// Declared final; never directly assigned to after object construction (JLS ยง17.5)
    AccFinal,

    /// Declared volatile; cannot be cached
    AccVolatile,

    /// Declared transient; not written or read by a persistent object manager
    AccTransient,

    /// Declared synthetic; not present in the source code
    AccSynthetic,

    /// Declared as an element of an enum class
    AccEnum,
}

/// Every bit that the field domain gives a meaning to.
pub const FIELD_KNOWN_BITS: u16 = 0x50DF;

impl FieldAccessFlags {
    /// The mask bit that stands for this flag.
    pub open spec fn spec_bit(self) -> u16 {
        match self {
            FieldAccessFlags::AccPublic => 0x0001,
            FieldAccessFlags::AccPrivate => 0x0002,
            FieldAccessFlags::AccProtected => 0x0004,
            FieldAccessFlags::AccStatic => 0x0008,
            FieldAccessFlags::AccFinal => 0x0010,
            FieldAccessFlags::AccVolatile => 0x0040,
            FieldAccessFlags::AccTransient => 0x0080,
            FieldAccessFlags::AccSynthetic => 0x1000,
            FieldAccessFlags::AccEnum => 0x4000,
        }
    }
}

/// The flags that `mask` sets, in ascending bit order; other bits are skipped.
#[verifier::opaque]
pub open spec fn field_flags_of(mask: u16) -> Seq<FieldAccessFlags> {
    Seq::empty()
        + flag_if(mask, 0x0001, FieldAccessFlags::AccPublic)
        + flag_if(mask, 0x0002, FieldAccessFlags::AccPrivate)
        + flag_if(mask, 0x0004, FieldAccessFlags::AccProtected)
        + flag_if(mask, 0x0008, FieldAccessFlags::AccStatic)
        + flag_if(mask, 0x0010, FieldAccessFlags::AccFinal)
        + flag_if(mask, 0x0040, FieldAccessFlags::AccVolatile)
        + flag_if(mask, 0x0080, FieldAccessFlags::AccTransient)
        + flag_if(mask, 0x1000, FieldAccessFlags::AccSynthetic)
        + flag_if(mask, 0x4000, FieldAccessFlags::AccEnum)
}

/// The bitwise OR of the masks of the flags in `flags`.
pub open spec fn field_mask_of(flags: Seq<FieldAccessFlags>) -> u16 {
    (if flags.contains(FieldAccessFlags::AccPublic) { 0x0001u16 } else { 0u16 })
        | (if flags.contains(FieldAccessFlags::AccPrivate) { 0x0002u16 } else { 0u16 })
        | (if flags.contains(FieldAccessFlags::AccProtected) { 0x0004u16 } else { 0u16 })
        | (if flags.contains(FieldAccessFlags::AccStatic) { 0x0008u16 } else { 0u16 })
        | (if flags.contains(FieldAccessFlags::AccFinal) { 0x0010u16 } else { 0u16 })
        | (if flags.contains(FieldAccessFlags::AccVolatile) { 0x0040u16 } else { 0u16 })
        | (if flags.contains(FieldAccessFlags::AccTransient) { 0x0080u16 } else { 0u16 })
        | (if flags.contains(FieldAccessFlags::AccSynthetic) { 0x1000u16 } else { 0u16 })
        | (if flags.contains(FieldAccessFlags::AccEnum) { 0x4000u16 } else { 0u16 })
}

impl Flags for FieldAccessFlags {
    type AccessFlagType = FieldAccessFlags;

    fn from_u16(value: u16) -> (r: Vec<FieldAccessFlags>)
        ensures
            r@ == field_flags_of(value),
    {
        let mut flags: Vec<FieldAccessFlags> = Vec::new();
        push_if(&mut flags, value, 0x0001, FieldAccessFlags::AccPublic);
        push_if(&mut flags, value, 0x0002, FieldAccessFlags::AccPrivate);
        push_if(&mut flags, value, 0x0004, FieldAccessFlags::AccProtected);
        push_if(&mut flags, value, 0x0008, FieldAccessFlags::AccStatic);
        push_if(&mut flags, value, 0x0010, FieldAccessFlags::AccFinal);
        push_if(&mut flags, value, 0x0040, FieldAccessFlags::AccVolatile);
        push_if(&mut flags, value, 0x0080, FieldAccessFlags::AccTransient);
        push_if(&mut flags, value, 0x1000, FieldAccessFlags::AccSynthetic);
        push_if(&mut flags, value, 0x4000, FieldAccessFlags::AccEnum);
        proof {
            reveal(field_flags_of);
        }
        flags
    }
}

/// A flag is among the decoded field flags exactly when the mask sets its bit.
pub proof fn lemma_field_flags_contains(mask: u16, flag: FieldAccessFlags)
    ensures
        field_flags_of(mask).contains(flag) == (mask & flag.spec_bit() == flag.spec_bit()),
{
    reveal(field_flags_of);
    let s0 = Seq::<FieldAccessFlags>::empty();
    assert(!s0.contains(flag));
    lemma_contains_flag_if(s0, mask, 0x0001, FieldAccessFlags::AccPublic, flag);
    let s1 = s0 + flag_if(mask, 0x0001, FieldAccessFlags::AccPublic);
    lemma_contains_flag_if(s1, mask, 0x0002, FieldAccessFlags::AccPrivate, flag);
    let s2 = s1 + flag_if(mask, 0x0002, FieldAccessFlags::AccPrivate);
    lemma_contains_flag_if(s2, mask, 0x0004, FieldAccessFlags::AccProtected, flag);
    let s3 = s2 + flag_if(mask, 0x0004, FieldAccessFlags::AccProtected);
    lemma_contains_flag_if(s3, mask, 0x0008, FieldAccessFlags::AccStatic, flag);
    let s4 = s3 + flag_if(mask, 0x0008, FieldAccessFlags::AccStatic);
    lemma_contains_flag_if(s4, mask, 0x0010, FieldAccessFlags::AccFinal, flag);
    let s5 = s4 + flag_if(mask, 0x0010, FieldAccessFlags::AccFinal);
    lemma_contains_flag_if(s5, mask, 0x0040, FieldAccessFlags::AccVolatile, flag);
    let s6 = s5 + flag_if(mask, 0x0040, FieldAccessFlags::AccVolatile);
    lemma_contains_flag_if(s6, mask, 0x0080, FieldAccessFlags::AccTransient, flag);
    let s7 = s6 + flag_if(mask, 0x0080, FieldAccessFlags::AccTransient);
    lemma_contains_flag_if(s7, mask, 0x1000, FieldAccessFlags::AccSynthetic, flag);
    let s8 = s7 + flag_if(mask, 0x1000, FieldAccessFlags::AccSynthetic);
    lemma_contains_flag_if(s8, mask, 0x4000, FieldAccessFlags::AccEnum, flag);
    let s9 = s8 + flag_if(mask, 0x4000, FieldAccessFlags::AccEnum);
}

/// A mask whose only recognised field bit is the bit of `flag` decodes to `flag` alone,
/// whatever unrecognised bits it also sets.
pub proof fn lemma_field_single_flag(mask: u16, flag: FieldAccessFlags)
    requires
        mask & FIELD_KNOWN_BITS == flag.spec_bit(),
    ensures
        field_flags_of(mask) == seq![flag],
{
    reveal(field_flags_of);
    let b = flag.spec_bit();
    assert((mask & 0x0001 == 0x0001) == (b == 0x0001) && (mask & 0x0002 == 0x0002) == (b == 0x0002) && (mask & 0x0004 == 0x0004) == (b == 0x0004) && (mask & 0x0008 == 0x0008) == (b == 0x0008) && (mask & 0x0010 == 0x0010) == (b == 0x0010) && (mask & 0x0040 == 0x0040) == (b == 0x0040) && (mask & 0x0080 == 0x0080) == (b == 0x0080) && (mask & 0x1000 == 0x1000) == (b == 0x1000) && (mask & 0x4000 == 0x4000) == (b == 0x4000)) by (bit_vector)
        requires
            mask & 0x50DF == b,
            b == 0x0001 || b == 0x0002 || b == 0x0004 || b == 0x0008 || b == 0x0010 || b == 0x0040 || b == 0x0080 || b == 0x1000 || b == 0x4000;
    assert(field_flags_of(mask) =~= seq![flag]);
}

/// Decoding the OR of the masks of a decoded field flag list gives that list again.
pub proof fn lemma_field_flags_reencode(mask: u16)
    ensures
        field_flags_of(field_mask_of(field_flags_of(mask))) == field_flags_of(mask),
{
    lemma_field_flags_contains(mask, FieldAccessFlags::AccPublic);
    lemma_field_flags_contains(mask, FieldAccessFlags::AccPrivate);
    lemma_field_flags_contains(mask, FieldAccessFlags::AccProtected);
    lemma_field_flags_contains(mask, FieldAccessFlags::AccStatic);
    lemma_field_flags_contains(mask, FieldAccessFlags::AccFinal);
    lemma_field_flags_contains(mask, FieldAccessFlags::AccVolatile);
    lemma_field_flags_contains(mask, FieldAccessFlags::AccTransient);
    lemma_field_flags_contains(mask, FieldAccessFlags::AccSynthetic);
    lemma_field_flags_contains(mask, FieldAccessFlags::AccEnum);
    let m = field_mask_of(field_flags_of(mask));
    assert(m == (if mask & 0x0001 == 0x0001 { 0x0001u16 } else { 0u16 })
            | (if mask & 0x0002 == 0x0002 { 0x0002u16 } else { 0u16 })
            | (if mask & 0x0004 == 0x0004 { 0x0004u16 } else { 0u16 })
            | (if mask & 0x0008 == 0x0008 { 0x0008u16 } else { 0u16 })
            | (if mask & 0x0010 == 0x0010 { 0x0010u16 } else { 0u16 })
            | (if mask & 0x0040 == 0x0040 { 0x0040u16 } else { 0u16 })
            | (if mask & 0x0080 == 0x0080 { 0x0080u16 } else { 0u16 })
            | (if mask & 0x1000 == 0x1000 { 0x1000u16 } else { 0u16 })
            | (if mask & 0x4000 == 0x4000 { 0x4000u16 } else { 0u16 }));
    assert((m & 0x0001 == 0x0001) == (mask & 0x0001 == 0x0001) && (m & 0x0002 == 0x0002) == (mask & 0x0002 == 0x0002) && (m & 0x0004 == 0x0004) == (mask & 0x0004 == 0x0004) && (m & 0x0008 == 0x0008) == (mask & 0x0008 == 0x0008) && (m & 0x0010 == 0x0010) == (mask & 0x0010 == 0x0010) && (m & 0x0040 == 0x0040) == (mask & 0x0040 == 0x0040) && (m & 0x0080 == 0x0080) == (mask & 0x0080 == 0x0080) && (m & 0x1000 == 0x1000) == (mask & 0x1000 == 0x1000) && (m & 0x4000 == 0x4000) == (mask & 0x4000 == 0x4000)) by (bit_vector)
        requires
            m == (if mask & 0x0001 == 0x0001 { 0x0001u16 } else { 0u16 })
            | (if mask & 0x0002 == 0x0002 { 0x0002u16 } else { 0u16 })
            | (if mask & 0x0004 == 0x0004 { 0x0004u16 } else { 0u16 })
            | (if mask & 0x0008 == 0x0008 { 0x0008u16 } else { 0u16 })
            | (if mask & 0x0010 == 0x0010 { 0x0010u16 } else { 0u16 })
            | (if mask & 0x0040 == 0x0040 { 0x0040u16 } else { 0u16 })
            | (if mask & 0x0080 == 0x0080 { 0x0080u16 } else { 0u16 })
            | (if mask & 0x1000 == 0x1000 { 0x1000u16 } else { 0u16 })
            | (if mask & 0x4000 == 0x4000 { 0x4000u16 } else { 0u16 });
    reveal(field_flags_of);
}

/// Method access and property flags
#[derive(Clone, Copy, Debug, PartialEq, Eq, Structural)]
pub enum MethodAccessFlags {
    /// Declared public; may be accessed from outside its package
    AccPublic,

    /// Declared private; accessible only within the defining class and other classes belonging to the same nest [ยง5.4.4](https://docs.oracle.com/javase/specs/jvms/se17/html/jvms-5.html#jvms-5.4.4)
    AccPrivate,

    /// Declared protected; may be accessed within subclasses
    AccProtected,

    /// Declared static
    AccStatic,

    /// Declared final; must not be overridden [ยง5.4.5](https://docs.oracle.com/javase/specs/jvms/se17/html/jvms-5.html#jvms-5.4.5)
    AccFinal,

    /// Declared synchronized; invocation is wrapped by a monitor use
    AccSynchronized,

    /// A bridge method, generated by the compiler
    AccBridge,

    /// Declared with variable number of arguments
    AccVarArgs,

    /// Declared native; implemented in a language other than the Java programming language
    AccNative,

    /// Declared abstract; no implementation is provided
    AccAbstract,

    /// In a class file whose major version number is at least 46 and at most 60: Declared strictfp
    AccStrict,

    /// Declared synthetic; not present in the source code
    AccSynthetic,
}

/// Every bit that the method domain gives a meaning to.
pub const METHOD_KNOWN_BITS: u16 = 0x1DFF;

impl MethodAccessFlags {
    /// The mask bit that stands for this flag.
    pub open spec fn spec_bit(self) -> u16 {
        match self {
            MethodAccessFlags::AccPublic => 0x0001,
            MethodAccessFlags::AccPrivate => 0x0002,
            MethodAccessFlags::AccProtected => 0x0004,
            MethodAccessFlags::AccStatic => 0x0008,
            MethodAccessFlags::AccFinal => 0x0010,
            MethodAccessFlags::AccSynchronized => 0x0020,
            MethodAccessFlags::AccBridge => 0x0040,
            MethodAccessFlags::AccVarArgs => 0x0080,
            MethodAccessFlags::AccNative => 0x0100,
            MethodAccessFlags::AccAbstract => 0x0400,
            MethodAccessFlags::AccStrict => 0x0800,
            MethodAccessFlags::AccSynthetic => 0x1000,
        }
    }
}

/// The flags that `mask` sets, in ascending bit order; other bits are skipped.
#[verifier::opaque]
pub open spec fn method_flags_of(mask: u16) -> Seq<MethodAccessFlags> {
    Seq::empty()
        + flag_if(mask, 0x0001, MethodAccessFlags::AccPublic)
        + flag_if(mask, 0x0002, MethodAccessFlags::AccPrivate)
        + flag_if(mask, 0x0004, MethodAccessFlags::AccProtected)
        + flag_if(mask, 0x0008, MethodAccessFlags::AccStatic)
        + flag_if(mask, 0x0010, MethodAccessFlags::AccFinal)
        + flag_if(mask, 0x0020, MethodAccessFlags::AccSynchronized)
        + flag_if(mask, 0x0040, MethodAccessFlags::AccBridge)
        + flag_if(mask, 0x0080, MethodAccessFlags::AccVarArgs)
        + flag_if(mask, 0x0100, MethodAccessFlags::AccNative)
        + flag_if(mask, 0x0400, MethodAccessFlags::AccAbstract)
        + flag_if(mask, 0x0800, MethodAccessFlags::AccStrict)
        + flag_if(mask, 0x1000, MethodAccessFlags::AccSynthetic)
}

/// The bitwise OR of the masks of the flags in `flags`.
pub open spec fn method_mask_of(flags: Seq<MethodAccessFlags>) -> u16 {
    (if flags.contains(MethodAccessFlags::AccPublic) { 0x0001u16 } else { 0u16 })
        | (if flags.contains(MethodAccessFlags::AccPrivate) { 0x0002u16 } else { 0u16 })
        | (if flags.contains(MethodAccessFlags::AccProtected) { 0x0004u16 } else { 0u16 })
        | (if flags.contains(MethodAccessFlags::AccStatic) { 0x0008u16 } else { 0u16 })
        | (if flags.contains(MethodAccessFlags::AccFinal) { 0x0010u16 } else { 0u16 })
        | (if flags.contains(MethodAccessFlags::AccSynchronized) { 0x0020u16 } else { 0u16 })
        | (if flags.contains(MethodAccessFlags::AccBridge) { 0x0040u16 } else { 0u16 })
        | (if flags.contains(MethodAccessFlags::AccVarArgs) { 0x0080u16 } else { 0u16 })
        | (if flags.contains(MethodAccessFlags::AccNative) { 0x0100u16 } else { 0u16 })
        | (if flags.contains(MethodAccessFlags::AccAbstract) { 0x0400u16 } else { 0u16 })
        | (if flags.contains(MethodAccessFlags::AccStrict) { 0x0800u16 } else { 0u16 })
        | (if flags.contains(MethodAccessFlags::AccSynthetic) { 0x1000u16 } else { 0u16 })
}

impl Flags for MethodAccessFlags {
    type AccessFlagType = MethodAccessFlags;

    fn from_u16(value: u16) -> (r: Vec<MethodAccessFlags>)
        ensures
            r@ == method_flags_of(value),
    {
        let mut flags: Vec<MethodAccessFlags> = Vec::new();
        push_if(&mut flags, value, 0x0001, MethodAccessFlags::AccPublic);
        push_if(&mut flags, value, 0x0002, MethodAccessFlags::AccPrivate);
        push_if(&mut flags, value, 0x0004, MethodAccessFlags::AccProtected);
        push_if(&mut flags, value, 0x0008, MethodAccessFlags::AccStatic);
        push_if(&mut flags, value, 0x0010, MethodAccessFlags::AccFinal);
        push_if(&mut flags, value, 0x0020, MethodAccessFlags::AccSynchronized);
        push_if(&mut flags, value, 0x0040, MethodAccessFlags::AccBridge);
        push_if(&mut flags, value, 0x0080, MethodAccessFlags::AccVarArgs);
        push_if(&mut flags, value, 0x0100, MethodAccessFlags::AccNative);
        push_if(&mut flags, value, 0x0400, MethodAccessFlags::AccAbstract);
        push_if(&mut flags, value, 0x0800, MethodAccessFlags::AccStrict);
        push_if(&mut flags, value, 0x1000, MethodAccessFlags::AccSynthetic);
        proof {
            reveal(method_flags_of);
        }
        flags
    }
}

/// A flag is among the decoded method flags exactly when the mask sets its bit.
pub proof fn lemma_method_flags_contains(mask: u16, flag: MethodAccessFlags)
    ensures
        method_flags_of(mask).contains(flag) == (mask & flag.spec_bit() == flag.spec_bit()),
{
    reveal(method_flags_of);
    let s0 = Seq::<MethodAccessFlags>::empty();
    assert(!s0.contains(flag));
    lemma_contains_flag_if(s0, mask, 0x0001, MethodAccessFlags::AccPublic, flag);
    let s1 = s0 + flag_if(mask, 0x0001, MethodAccessFlags::AccPublic);
    lemma_contains_flag_if(s1, mask, 0x0002, MethodAccessFlags::AccPrivate, flag);
    let s2 = s1 + flag_if(mask, 0x0002, MethodAccessFlags::AccPrivate);
    lemma_contains_flag_if(s2, mask, 0x0004, MethodAccessFlags::AccProtected, flag);
    let s3 = s2 + flag_if(mask, 0x0004, MethodAccessFlags::AccProtected);
    lemma_contains_flag_if(s3, mask, 0x0008, MethodAccessFlags::AccStatic, flag);
    let s4 = s3 + flag_if(mask, 0x0008, MethodAccessFlags::AccStatic);
    lemma_contains_flag_if(s4, mask, 0x0010, MethodAccessFlags::AccFinal, flag);
    let s5 = s4 + flag_if(mask, 0x0010, MethodAccessFlags::AccFinal);
    lemma_contains_flag_if(s5, mask, 0x0020, MethodAccessFlags::AccSynchronized, flag);
    let s6 = s5 + flag_if(mask, 0x0020, MethodAccessFlags::AccSynchronized);
    lemma_contains_flag_if(s6, mask, 0x0040, MethodAccessFlags::AccBridge, flag);
    let s7 = s6 + flag_if(mask, 0x0040, MethodAccessFlags::AccBridge);
    lemma_contains_flag_if(s7, mask, 0x0080, MethodAccessFlags::AccVarArgs, flag);
    let s8 = s7 + flag_if(mask, 0x0080, MethodAccessFlags::AccVarArgs);
    lemma_contains_flag_if(s8, mask, 0x0100, MethodAccessFlags::AccNative, flag);
    let s9 = s8 + flag_if(mask, 0x0100, MethodAccessFlags::AccNative);
    lemma_contains_flag_if(s9, mask, 0x0400, MethodAccessFlags::AccAbstract, flag);
    let s10 = s9 + flag_if(mask, 0x0400, MethodAccessFlags::AccAbstract);
    lemma_contains_flag_if(s10, mask, 0x0800, MethodAccessFlags::AccStrict, flag);
    let s11 = s10 + flag_if(mask, 0x0800, MethodAccessFlags::AccStrict);
    lemma_contains_flag_if(s11, mask, 0x1000, MethodAccessFlags::AccSynthetic, flag);
    let s12 = s11 + flag_if(mask, 0x1000, MethodAccessFlags::AccSynthetic);
}

/// A mask whose only recognised method bit is the bit of `flag` decodes to `flag` alone,
/// whatever unrecognised bits it also sets.
pub proof fn lemma_method_single_flag(mask: u16, flag: MethodAccessFlags)
    requires
        mask & METHOD_KNOWN_BITS == flag.spec_bit(),
    ensures
        method_flags_of(mask) == seq![flag],
{
    reveal(method_flags_of);
    let b = flag.spec_bit();
    assert((mask & 0x0001 == 0x0001) == (b == 0x0001) && (mask & 0x0002 == 0x0002) == (b == 0x0002) && (mask & 0x0004 == 0x0004) == (b == 0x0004) && (mask & 0x0008 == 0x0008) == (b == 0x0008) && (mask & 0x0010 == 0x0010) == (b == 0x0010) && (mask & 0x0020 == 0x0020) == (b == 0x0020) && (mask & 0x0040 == 0x0040) == (b == 0x0040) && (mask & 0x0080 == 0x0080) == (b == 0x0080) && (mask & 0x0100 == 0x0100) == (b == 0x0100) && (mask & 0x0400 == 0x0400) == (b == 0x0400) && (mask & 0x0800 == 0x0800) == (b == 0x0800) && (mask & 0x1000 == 0x1000) == (b == 0x1000)) by (bit_vector)
        requires
            mask & 0x1DFF == b,
            b == 0x0001 || b == 0x0002 || b == 0x0004 || b == 0x0008 || b == 0x0010 || b == 0x0020 || b == 0x0040 || b == 0x0080 || b == 0x0100 || b == 0x0400 || b == 0x0800 || b == 0x1000;
    assert(method_flags_of(mask) =~= seq![flag]);
}

/// Decoding the OR of the masks of a decoded method flag list gives that list again.
pub proof fn lemma_method_flags_reencode(mask: u16)
    ensures
        method_flags_of(method_mask_of(method_flags_of(mask))) == method_flags_of(mask),
{
    lemma_method_flags_contains(mask, MethodAccessFlags::AccPublic);
    lemma_method_flags_contains(mask, MethodAccessFlags::AccPrivate);
    lemma_method_flags_contains(mask, MethodAccessFlags::AccProtected);
    lemma_method_flags_contains(mask, MethodAccessFlags::AccStatic);
    lemma_method_flags_contains(mask, MethodAccessFlags::AccFinal);
    lemma_method_flags_contains(mask, MethodAccessFlags::AccSynchronized);
    lemma_method_flags_contains(mask, MethodAccessFlags::AccBridge);
    lemma_method_flags_contains(mask, MethodAccessFlags::AccVarArgs);
    lemma_method_flags_contains(mask, MethodAccessFlags::AccNative);
    lemma_method_flags_contains(mask, MethodAccessFlags::AccAbstract);
    lemma_method_flags_contains(mask, MethodAccessFlags::AccStrict);
    lemma_method_flags_contains(mask, MethodAccessFlags::AccSynthetic);
    let m = method_mask_of(method_flags_of(mask));
    assert(m == (if mask & 0x0001 == 0x0001 { 0x0001u16 } else { 0u16 })
            | (if mask & 0x0002 == 0x0002 { 0x0002u16 } else { 0u16 })
            | (if mask & 0x0004 == 0x0004 { 0x0004u16 } else { 0u16 })
            | (if mask & 0x0008 == 0x0008 { 0x0008u16 } else { 0u16 })
            | (if mask & 0x0010 == 0x0010 { 0x0010u16 } else { 0u16 })
            | (if mask & 0x0020 == 0x0020 { 0x0020u16 } else { 0u16 })
            | (if mask & 0x0040 == 0x0040 { 0x0040u16 } else { 0u16 })
            | (if mask & 0x0080 == 0x0080 { 0x0080u16 } else { 0u16 })
            | (if mask & 0x0100 == 0x0100 { 0x0100u16 } else { 0u16 })
            | (if mask & 0x0400 == 0x0400 { 0x0400u16 } else { 0u16 })
            | (if mask & 0x0800 == 0x0800 { 0x0800u16 } else { 0u16 })
            | (if mask & 0x1000 == 0x1000 { 0x1000u16 } else { 0u16 }));
    assert((m & 0x0001 == 0x0001) == (mask & 0x0001 == 0x0001) && (m & 0x0002 == 0x0002) == (mask & 0x0002 == 0x0002) && (m & 0x0004 == 0x0004) == (mask & 0x0004 == 0x0004) && (m & 0x0008 == 0x0008) == (mask & 0x0008 == 0x0008) && (m & 0x0010 == 0x0010) == (mask & 0x0010 == 0x0010) && (m & 0x0020 == 0x0020) == (mask & 0x0020 == 0x0020) && (m & 0x0040 == 0x0040) == (mask & 0x0040 == 0x0040) && (m & 0x0080 == 0x0080) == (mask & 0x0080 == 0x0080) && (m & 0x0100 == 0x0100) == (mask & 0x0100 == 0x0100) && (m & 0x0400 == 0x0400) == (mask & 0x0400 == 0x0400) && (m & 0x0800 == 0x0800) == (mask & 0x0800 == 0x0800) && (m & 0x1000 == 0x1000) == (mask & 0x1000 == 0x1000)) by (bit_vector)
        requires
            m == (if mask & 0x0001 == 0x0001 { 0x0001u16 } else { 0u16 })
            | (if mask & 0x0002 == 0x0002 { 0x0002u16 } else { 0u16 })
            | (if mask & 0x0004 == 0x0004 { 0x0004u16 } else { 0u16 })
            | (if mask & 0x0008 == 0x0008 { 0x0008u16 } else { 0u16 })
            | (if mask & 0x0010 == 0x0010 { 0x0010u16 } else { 0u16 })
            | (if mask & 0x0020 == 0x0020 { 0x0020u16 } else { 0u16 })
            | (if mask & 0x0040 == 0x0040 { 0x0040u16 } else { 0u16 })
            | (if mask & 0x0080 == 0x0080 { 0x0080u16 } else { 0u16 })
            | (if mask & 0x0100 == 0x0100 { 0x0100u16 } else { 0u16 })
            | (if mask & 0x0400 == 0x0400 { 0x0400u16 } else { 0u16 })
            | (if mask & 0x0800 == 0x0800 { 0x0800u16 } else { 0u16 })
            | (if mask & 0x1000 == 0x1000 { 0x1000u16 } else { 0u16 });
    reveal(method_flags_of);
}

/// Nested class access and property flags
#[derive(Clone, Copy, Debug, PartialEq, Eq, Structural)]
pub enum NestedClassAccessFlags {
    /// Marked or implicitly public in source
    AccPublic,

    /// Marked private in source
    AccPrivate,

    /// Marked protected in source
    AccProtected,

    /// Marked or implicitly static in source
    AccStatic,

    /// Marked or implicitly final in source
    AccFinal,

    /// Was an interface in source
    AccInterface,

    /// Marked or implicitly abstract in source.
    AccAbstract,

    /// Declared synthetic; not present in the source code
    AccSynthetic,

    /// Declared as an annotation interface
    AccAnnotation,

    /// Declared as an enum class
    AccEnum,
}

/// Every bit that the nested class domain gives a meaning to.
pub const NESTED_CLASS_KNOWN_BITS: u16 = 0x761F;

impl NestedClassAccessFlags {
    /// The mask bit that stands for this flag.
    pub open spec fn spec_bit(self) -> u16 {
        match self {
            NestedClassAccessFlags::AccPublic => 0x0001,
            NestedClassAccessFlags::AccPrivate => 0x0002,
            NestedClassAccessFlags::AccProtected => 0x0004,
            NestedClassAccessFlags::AccStatic => 0x0008,
            NestedClassAccessFlags::AccFinal => 0x0010,
            NestedClassAccessFlags::AccInterface => 0x0200,
            NestedClassAccessFlags::AccAbstract => 0x0400,
            NestedClassAccessFlags::AccSynthetic => 0x1000,
            NestedClassAccessFlags::AccAnnotation => 0x2000,
            NestedClassAccessFlags::AccEnum => 0x4000,
        }
    }
}

/// The flags that `mask` sets, in ascending bit order; other bits are skipped.
#[verifier::opaque]
pub open spec fn nested_class_flags_of(mask: u16) -> Seq<NestedClassAccessFlags> {
    Seq::empty()
        + flag_if(mask, 0x0001, NestedClassAccessFlags::AccPublic)
        + flag_if(mask, 0x0002, NestedClassAccessFlags::AccPrivate)
        + flag_if(mask, 0x0004, NestedClassAccessFlags::AccProtected)
        + flag_if(mask, 0x0008, NestedClassAccessFlags::AccStatic)
        + flag_if(mask, 0x0010, NestedClassAccessFlags::AccFinal)
        + flag_if(mask, 0x0200, NestedClassAccessFlags::AccInterface)
        + flag_if(mask, 0x0400, NestedClassAccessFlags::AccAbstract)
        + flag_if(mask, 0x1000, NestedClassAccessFlags::AccSynthetic)
        + flag_if(mask, 0x2000, NestedClassAccessFlags::AccAnnotation)
        + flag_if(mask, 0x4000, NestedClassAccessFlags::AccEnum)
}

/// The bitwise OR of the masks of the flags in `flags`.
pub open spec fn nested_class_mask_of(flags: Seq<NestedClassAccessFlags>) -> u16 {
    (if flags.contains(NestedClassAccessFlags::AccPublic) { 0x0001u16 } else { 0u16 })
        | (if flags.contains(NestedClassAccessFlags::AccPrivate) { 0x0002u16 } else { 0u16 })
        | (if flags.contains(NestedClassAccessFlags::AccProtected) { 0x0004u16 } else { 0u16 })
        | (if flags.contains(NestedClassAccessFlags::AccStatic) { 0x0008u16 } else { 0u16 })
        | (if flags.contains(NestedClassAccessFlags::AccFinal) { 0x0010u16 } else { 0u16 })
        | (if flags.contains(NestedClassAccessFlags::AccInterface) { 0x0200u16 } else { 0u16 })
        | (if flags.contains(NestedClassAccessFlags::AccAbstract) { 0x0400u16 } else { 0u16 })
        | (if flags.contains(NestedClassAccessFlags::AccSynthetic) { 0x1000u16 } else { 0u16 })
        | (if flags.contains(NestedClassAccessFlags::AccAnnotation) { 0x2000u16 } else { 0u16 })
        | (if flags.contains(NestedClassAccessFlags::AccEnum) { 0x4000u16 } else { 0u16 })
}

impl Flags for NestedClassAccessFlags {
    type AccessFlagType = NestedClassAccessFlags;

    fn from_u16(value: u16) -> (r: Vec<NestedClassAccessFlags>)
        ensures
            r@ == nested_class_flags_of(value),
    {
        let mut flags: Vec<NestedClassAccessFlags> = Vec::new();
        push_if(&mut flags, value, 0x0001, NestedClassAccessFlags::AccPublic);
        push_if(&mut flags, value, 0x0002, NestedClassAccessFlags::AccPrivate);
        push_if(&mut flags, value, 0x0004, NestedClassAccessFlags::AccProtected);
        push_if(&mut flags, value, 0x0008, NestedClassAccessFlags::AccStatic);
        push_if(&mut flags, value, 0x0010, NestedClassAccessFlags::AccFinal);
        push_if(&mut flags, value, 0x0200, NestedClassAccessFlags::AccInterface);
        push_if(&mut flags, value, 0x0400, NestedClassAccessFlags::AccAbstract);
        push_if(&mut flags, value, 0x1000, NestedClassAccessFlags::AccSynthetic);
        push_if(&mut flags, value, 0x2000, NestedClassAccessFlags::AccAnnotation);
        push_if(&mut flags, value, 0x4000, NestedClassAccessFlags::AccEnum);
        proof {
            reveal(nested_class_flags_of);
        }
        flags
    }
}

/// A flag is among the decoded nested class flags exactly when the mask sets its bit.
pub proof fn lemma_nested_class_flags_contains(mask: u16, flag: NestedClassAccessFlags)
    ensures
        nested_class_flags_of(mask).contains(flag) == (mask & flag.spec_bit() == flag.spec_bit()),
{
    reveal(nested_class_flags_of);
    let s0 = Seq::<NestedClassAccessFlags>::empty();
    assert(!s0.contains(flag));
    lemma_contains_flag_if(s0, mask, 0x0001, NestedClassAccessFlags::AccPublic, flag);
    let s1 = s0 + flag_if(mask, 0x0001, NestedClassAccessFlags::AccPublic);
    lemma_contains_flag_if(s1, mask, 0x0002, NestedClassAccessFlags::AccPrivate, flag);
    let s2 = s1 + flag_if(mask, 0x0002, NestedClassAccessFlags::AccPrivate);
    lemma_contains_flag_if(s2, mask, 0x0004, NestedClassAccessFlags::AccProtected, flag);
    let s3 = s2 + flag_if(mask, 0x0004, NestedClassAccessFlags::AccProtected);
    lemma_contains_flag_if(s3, mask, 0x0008, NestedClassAccessFlags::AccStatic, flag);
    let s4 = s3 + flag_if(mask, 0x0008, NestedClassAccessFlags::AccStatic);
    lemma_contains_flag_if(s4, mask, 0x0010, NestedClassAccessFlags::AccFinal, flag);
    let s5 = s4 + flag_if(mask, 0x0010, NestedClassAccessFlags::AccFinal);
    lemma_contains_flag_if(s5, mask, 0x0200, NestedClassAccessFlags::AccInterface, flag);
    let s6 = s5 + flag_if(mask, 0x0200, NestedClassAccessFlags::AccInterface);
    lemma_contains_flag_if(s6, mask, 0x0400, NestedClassAccessFlags::AccAbstract, flag);
    let s7 = s6 + flag_if(mask, 0x0400, NestedClassAccessFlags::AccAbstract);
    lemma_contains_flag_if(s7, mask, 0x1000, NestedClassAccessFlags::AccSynthetic, flag);
    let s8 = s7 + flag_if(mask, 0x1000, NestedClassAccessFlags::AccSynthetic);
    lemma_contains_flag_if(s8, mask, 0x2000, NestedClassAccessFlags::AccAnnotation, flag);
    let s9 = s8 + flag_if(mask, 0x2000, NestedClassAccessFlags::AccAnnotation);
    lemma_contains_flag_if(s9, mask, 0x4000, NestedClassAccessFlags::AccEnum, flag);
    let s10 = s9 + flag_if(mask, 0x4000, NestedClassAccessFlags::AccEnum);
}

/// A mask whose only recognised nested class bit is the bit of `flag` decodes to `flag` alone,
/// whatever unrecognised bits it also sets.
pub proof fn lemma_nested_class_single_flag(mask: u16, flag: NestedClassAccessFlags)
    requires
        mask & NESTED_CLASS_KNOWN_BITS == flag.spec_bit(),
    ensures
        nested_class_flags_of(mask) == seq![flag],
{
    reveal(nested_class_flags_of);
    let b = flag.spec_bit();
    assert((mask & 0x0001 == 0x0001) == (b == 0x0001) && (mask & 0x0002 == 0x0002) == (b == 0x0002) && (mask & 0x0004 == 0x0004) == (b == 0x0004) && (mask & 0x0008 == 0x0008) == (b == 0x0008) && (mask & 0x0010 == 0x0010) == (b == 0x0010) && (mask & 0x0200 == 0x0200) == (b == 0x0200) && (mask & 0x0400 == 0x0400) == (b == 0x0400) && (mask & 0x1000 == 0x1000) == (b == 0x1000) && (mask & 0x2000 == 0x2000) == (b == 0x2000) && (mask & 0x4000 == 0x4000) == (b == 0x4000)) by (bit_vector)
        requires
            mask & 0x761F == b,
            b == 0x0001 || b == 0x0002 || b == 0x0004 || b == 0x0008 || b == 0x0010 || b == 0x0200 || b == 0x0400 || b == 0x1000 || b == 0x2000 || b == 0x4000;
    assert(nested_class_flags_of(mask) =~= seq![flag]);
}

/// Decoding the OR of the masks of a decoded nested class flag list gives that list again.
pub proof fn lemma_nested_class_flags_reencode(mask: u16)
    ensures
        nested_class_flags_of(nested_class_mask_of(nested_class_flags_of(mask))) == nested_class_flags_of(mask),
{
    lemma_nested_class_flags_contains(mask, NestedClassAccessFlags::AccPublic);
    lemma_nested_class_flags_contains(mask, NestedClassAccessFlags::AccPrivate);
    lemma_nested_class_flags_contains(mask, NestedClassAccessFlags::AccProtected);
    lemma_nested_class_flags_contains(mask, NestedClassAccessFlags::AccStatic);
    lemma_nested_class_flags_contains(mask, NestedClassAccessFlags::AccFinal);
    lemma_nested_class_flags_contains(mask, NestedClassAccessFlags::AccInterface);
    lemma_nested_class_flags_contains(mask, NestedClassAccessFlags::AccAbstract);
    lemma_nested_class_flags_contains(mask, NestedClassAccessFlags::AccSynthetic);
    lemma_nested_class_flags_contains(mask, NestedClassAccessFlags::AccAnnotation);
    lemma_nested_class_flags_contains(mask, NestedClassAccessFlags::AccEnum);
    let m = nested_class_mask_of(nested_class_flags_of(mask));
    assert(m == (if mask & 0x0001 == 0x0001 { 0x0001u16 } else { 0u16 })
            | (if mask & 0x0002 == 0x0002 { 0x0002u16 } else { 0u16 })
            | (if mask & 0x0004 == 0x0004 { 0x0004u16 } else { 0u16 })
            | (if mask & 0x0008 == 0x0008 { 0x0008u16 } else { 0u16 })
            | (if mask & 0x0010 == 0x0010 { 0x0010u16 } else { 0u16 })
            | (if mask & 0x0200 == 0x0200 { 0x0200u16 } else { 0u16 })
            | (if mask & 0x0400 == 0x0400 { 0x0400u16 } else { 0u16 })
            | (if mask & 0x1000 == 0x1000 { 0x1000u16 } else { 0u16 })
            | (if mask & 0x2000 == 0x2000 { 0x2000u16 } else { 0u16 })
            | (if mask & 0x4000 == 0x4000 { 0x4000u16 } else { 0u16 }));
    assert((m & 0x0001 == 0x0001) == (mask & 0x0001 == 0x0001) && (m & 0x0002 == 0x0002) == (mask & 0x0002 == 0x0002) && (m & 0x0004 == 0x0004) == (mask & 0x0004 == 0x0004) && (m & 0x0008 == 0x0008) == (mask & 0x0008 == 0x0008) && (m & 0x0010 == 0x0010) == (mask & 0x0010 == 0x0010) && (m & 0x0200 == 0x0200) == (mask & 0x0200 == 0x0200) && (m & 0x0400 == 0x0400) == (mask & 0x0400 == 0x0400) && (m & 0x1000 == 0x1000) == (mask & 0x1000 == 0x1000) && (m & 0x2000 == 0x2000) == (mask & 0x2000 == 0x2000) && (m & 0x4000 == 0x4000) == (mask & 0x4000 == 0x4000)) by (bit_vector)
        requires
            m == (if mask & 0x0001 == 0x0001 { 0x0001u16 } else { 0u16 })
            | (if mask & 0x0002 == 0x0002 { 0x0002u16 } else { 0u16 })
            | (if mask & 0x0004 == 0x0004 { 0x0004u16 } else { 0u16 })
            | (if mask & 0x0008 == 0x0008 { 0x0008u16 } else { 0u16 })
            | (if mask & 0x0010 == 0x0010 { 0x0010u16 } else { 0u16 })
            | (if mask & 0x0200 == 0x0200 { 0x0200u16 } else { 0u16 })
            | (if mask & 0x0400 == 0x0400 { 0x0400u16 } else { 0u16 })
            | (if mask & 0x1000 == 0x1000 { 0x1000u16 } else { 0u16 })
            | (if mask & 0x2000 == 0x2000 { 0x2000u16 } else { 0u16 })
            | (if mask & 0x4000 == 0x4000 { 0x4000u16 } else { 0u16 });
    reveal(nested_class_flags_of);
}

/// Method parameter access flags
#[derive(Clone, Copy, Debug, PartialEq, Eq, Structural)]
pub enum MethodParameterAccessFlags {
    /// Indicates that the formal parameter was declared `final`
    AccFinal,

    /// Indicates that the formal parameter was not explicitly or implicitly declared in sourcecode,
    /// according to the specification of the language in which the source code was written
    ///
    /// The formal parameter is an implementation artifact of the compiler which produced this class
    /// file
    AccSynthetic,

    /// Indicates that the formal parameter was implicitly declared in source code, according to the
    /// specification of the language in which the source code was written
    ///
    /// The formal parameter is mandated by a language specification, so all compilers for the
    /// language must emit it
    AccMandated,
}

/// Every bit that the method parameter domain gives a meaning to.
pub const METHOD_PARAMETER_KNOWN_BITS: u16 = 0x9010;

impl MethodParameterAccessFlags {
    /// The mask bit that stands for this flag.
    pub open spec fn spec_bit(self) -> u16 {
        match self {
            MethodParameterAccessFlags::AccFinal => 0x0010,
            MethodParameterAccessFlags::AccSynthetic => 0x1000,
            MethodParameterAccessFlags::AccMandated => 0x8000,
        }
    }
}

/// The flags that `mask` sets, in ascending bit order; other bits are skipped.
#[verifier::opaque]
pub open spec fn method_parameter_flags_of(mask: u16) -> Seq<MethodParameterAccessFlags> {
    Seq::empty()
        + flag_if(mask, 0x0010, MethodParameterAccessFlags::AccFinal)
        + flag_if(mask, 0x1000, MethodParameterAccessFlags::AccSynthetic)
        + flag_if(mask, 0x8000, MethodParameterAccessFlags::AccMandated)
}

/// The bitwise OR of the masks of the flags in `flags`.
pub open spec fn method_parameter_mask_of(flags: Seq<MethodParameterAccessFlags>) -> u16 {
    (if flags.contains(MethodParameterAccessFlags::AccFinal) { 0x0010u16 } else { 0u16 })
        | (if flags.contains(MethodParameterAccessFlags::AccSynthetic) { 0x1000u16 } else { 0u16 })
        | (if flags.contains(MethodParameterAccessFlags::AccMandated) { 0x8000u16 } else { 0u16 })
}

impl Flags for MethodParameterAccessFlags {
    type AccessFlagType = MethodParameterAccessFlags;

    fn from_u16(value: u16) -> (r: Vec<MethodParameterAccessFlags>)
        ensures
            r@ == method_parameter_flags_of(value),
    {
        let mut flags: Vec<MethodParameterAccessFlags> = Vec::new();
        push_if(&mut flags, value, 0x0010, MethodParameterAccessFlags::AccFinal);
        push_if(&mut flags, value, 0x1000, MethodParameterAccessFlags::AccSynthetic);
        push_if(&mut flags, value, 0x8000, MethodParameterAccessFlags::AccMandated);
        proof {
            reveal(method_parameter_flags_of);
        }
        flags
    }
}

/// A flag is among the decoded method parameter flags exactly when the mask sets its bit.
pub proof fn lemma_method_parameter_flags_contains(mask: u16, flag: MethodParameterAccessFlags)
    ensures
        method_parameter_flags_of(mask).contains(flag) == (mask & flag.spec_bit() == flag.spec_bit()),
{
    reveal(method_parameter_flags_of);
    let s0 = Seq::<MethodParameterAccessFlags>::empty();
    assert(!s0.contains(flag));
    lemma_contains_flag_if(s0, mask, 0x0010, MethodParameterAccessFlags::AccFinal, flag);
    let s1 = s0 + flag_if(mask, 0x0010, MethodParameterAccessFlags::AccFinal);
    lemma_contains_flag_if(s1, mask, 0x1000, MethodParameterAccessFlags::AccSynthetic, flag);
    let s2 = s1 + flag_if(mask, 0x1000, MethodParameterAccessFlags::AccSynthetic);
    lemma_contains_flag_if(s2, mask, 0x8000, MethodParameterAccessFlags::AccMandated, flag);
    let s3 = s2 + flag_if(mask, 0x8000, MethodParameterAccessFlags::AccMandated);
}

/// A mask whose only recognised method parameter bit is the bit of `flag` decodes to `flag` alone,
/// whatever unrecognised bits it also sets.
pub proof fn lemma_method_parameter_single_flag(mask: u16, flag: MethodParameterAccessFlags)
    requires
        mask & METHOD_PARAMETER_KNOWN_BITS == flag.spec_bit(),
    ensures
        method_parameter_flags_of(mask) == seq![flag],
{
    reveal(method_parameter_flags_of);
    let b = flag.spec_bit();
    assert((mask & 0x0010 == 0x0010) == (b == 0x0010) && (mask & 0x1000 == 0x1000) == (b == 0x1000) && (mask & 0x8000 == 0x8000) == (b == 0x8000)) by (bit_vector)
        requires
            mask & 0x9010 == b,
            b == 0x0010 || b == 0x1000 || b == 0x8000;
    assert(method_parameter_flags_of(mask) =~= seq![flag]);
}

/// Decoding the OR of the masks of a decoded method parameter flag list gives that list again.
pub proof fn lemma_method_parameter_flags_reencode(mask: u16)
    ensures
        method_parameter_flags_of(method_parameter_mask_of(method_parameter_flags_of(mask))) == method_parameter_flags_of(mask),
{
    lemma_method_parameter_flags_contains(mask, MethodParameterAccessFlags::AccFinal);
    lemma_method_parameter_flags_contains(mask, MethodParameterAccessFlags::AccSynthetic);
    lemma_method_parameter_flags_contains(mask, MethodParameterAccessFlags::AccMandated);
    let m = method_parameter_mask_of(method_parameter_flags_of(mask));
    assert(m == (if mask & 0x0010 == 0x0010 { 0x0010u16 } else { 0u16 })
            | (if mask & 0x1000 == 0x1000 { 0x1000u16 } else { 0u16 })
            | (if mask & 0x8000 == 0x8000 { 0x8000u16 } else { 0u16 }));
    assert((m & 0x0010 == 0x0010) == (mask & 0x0010 == 0x0010) && (m & 0x1000 == 0x1000) == (mask & 0x1000 == 0x1000) && (m & 0x8000 == 0x8000) == (mask & 0x8000 == 0x8000)) by (bit_vector)
        requires
            m == (if mask & 0x0010 == 0x0010 { 0x0010u16 } else { 0u16 })
            | (if mask & 0x1000 == 0x1000 { 0x1000u16 } else { 0u16 })
            | (if mask & 0x8000 == 0x8000 { 0x8000u16 } else { 0u16 });
    reveal(method_parameter_flags_of);
}

/// Module flags
#[derive(Clone, Copy, Debug, PartialEq, Eq, Structural)]
pub enum ModuleFlags {
    /// Indicates that this module is open
    AccOpen,

    /// Indicates that this module was not explicitly or implicitly declared
    AccSynthetic,

    /// Indicates that this module was implicitly declared
    AccMandated,
}

/// Every bit that the module domain gives a meaning to.
pub const MODULE_KNOWN_BITS: u16 = 0x9020;

impl ModuleFlags {
    /// The mask bit that stands for this flag.
    pub open spec fn spec_bit(self) -> u16 {
        match self {
            ModuleFlags::AccOpen => 0x0020,
            ModuleFlags::AccSynthetic => 0x1000,
            ModuleFlags::AccMandated => 0x8000,
        }
    }
}

/// The flags that `mask` sets, in ascending bit order; other bits are skipped.
#[verifier::opaque]
pub open spec fn module_flags_of(mask: u16) -> Seq<ModuleFlags> {
    Seq::empty()
        + flag_if(mask, 0x0020, ModuleFlags::AccOpen)
        + flag_if(mask, 0x1000, ModuleFlags::AccSynthetic)
        + flag_if(mask, 0x8000, ModuleFlags::AccMandated)
}

/// The bitwise OR of the masks of the flags in `flags`.
pub open spec fn module_mask_of(flags: Seq<ModuleFlags>) -> u16 {
    (if flags.contains(ModuleFlags::AccOpen) { 0x0020u16 } else { 0u16 })
        | (if flags.contains(ModuleFlags::AccSynthetic) { 0x1000u16 } else { 0u16 })
        | (if flags.contains(ModuleFlags::AccMandated) { 0x8000u16 } else { 0u16 })
}

impl Flags for ModuleFlags {
    type AccessFlagType = ModuleFlags;

    fn from_u16(value: u16) -> (r: Vec<ModuleFlags>)
        ensures
            r@ == module_flags_of(value),
    {
        let mut flags: Vec<ModuleFlags> = Vec::new();
        push_if(&mut flags, value, 0x0020, ModuleFlags::AccOpen);
        push_if(&mut flags, value, 0x1000, ModuleFlags::AccSynthetic);
        push_if(&mut flags, value, 0x8000, ModuleFlags::AccMandated);
        proof {
            reveal(module_flags_of);
        }
        flags
    }
}

/// A flag is among the decoded module flags exactly when the mask sets its bit.
pub proof fn lemma_module_flags_contains(mask: u16, flag: ModuleFlags)
    ensures
        module_flags_of(mask).contains(flag) == (mask & flag.spec_bit() == flag.spec_bit()),
{
    reveal(module_flags_of);
    let s0 = Seq::<ModuleFlags>::empty();
    assert(!s0.contains(flag));
    lemma_contains_flag_if(s0, mask, 0x0020, ModuleFlags::AccOpen, flag);
    let s1 = s0 + flag_if(mask, 0x0020, ModuleFlags::AccOpen);
    lemma_contains_flag_if(s1, mask, 0x1000, ModuleFlags::AccSynthetic, flag);
    let s2 = s1 + flag_if(mask, 0x1000, ModuleFlags::AccSynthetic);
    lemma_contains_flag_if(s2, mask, 0x8000, ModuleFlags::AccMandated, flag);
    let s3 = s2 + flag_if(mask, 0x8000, ModuleFlags::AccMandated);
}

/// A mask whose only recognised module bit is the bit of `flag` decodes to `flag` alone,
/// whatever unrecognised bits it also sets.
pub proof fn lemma_module_single_flag(mask: u16, flag: ModuleFlags)
    requires
        mask & MODULE_KNOWN_BITS == flag.spec_bit(),
    ensures
        module_flags_of(mask) == seq![flag],
{
    reveal(module_flags_of);
    let b = flag.spec_bit();
    assert((mask & 0x0020 == 0x0020) == (b == 0x0020) && (mask & 0x1000 == 0x1000) == (b == 0x1000) && (mask & 0x8000 == 0x8000) == (b == 0x8000)) by (bit_vector)
        requires
            mask & 0x9020 == b,
            b == 0x0020 || b == 0x1000 || b == 0x8000;
    assert(module_flags_of(mask) =~= seq![flag]);
}

/// Decoding the OR of the masks of a decoded module flag list gives that list again.
pub proof fn lemma_module_flags_reencode(mask: u16)
    ensures
        module_flags_of(module_mask_of(module_flags_of(mask))) == module_flags_of(mask),
{
    lemma_module_flags_contains(mask, ModuleFlags::AccOpen);
    lemma_module_flags_contains(mask, ModuleFlags::AccSynthetic);
    lemma_module_flags_contains(mask, ModuleFlags::AccMandated);
    let m = module_mask_of(module_flags_of(mask));
    assert(m == (if mask & 0x0020 == 0x0020 { 0x0020u16 } else { 0u16 })
            | (if mask & 0x1000 == 0x1000 { 0x1000u16 } else { 0u16 })
            | (if mask & 0x8000 == 0x8000 { 0x8000u16 } else { 0u16 }));
    assert((m & 0x0020 == 0x0020) == (mask & 0x0020 == 0x0020) && (m & 0x1000 == 0x1000) == (mask & 0x1000 == 0x1000) && (m & 0x8000 == 0x8000) == (mask & 0x8000 == 0x8000)) by (bit_vector)
        requires
            m == (if mask & 0x0020 == 0x0020 { 0x0020u16 } else { 0u16 })
            | (if mask & 0x1000 == 0x1000 { 0x1000u16 } else { 0u16 })
            | (if mask & 0x8000 == 0x8000 { 0x8000u16 } else { 0u16 });
    reveal(module_flags_of);
}

/// Module requires flags
#[derive(Clone, Copy, Debug, PartialEq, Eq, Structural)]
pub enum ModuleRequiresFlags {
    /// Indicates that any module which depends on the current module, implicitly declares a
    /// dependence on the module indicated by this entry
    AccTransitive,

    /// Indicates that this dependence is mandatory in the static phase, i.e., at compile time, but
    /// is optional in the dynamic phase, i.e., at run time
    AccStaticPhase,

    /// Indicates that this dependence was not explicitly or implicitly declared in the source of
    /// the module declaration
    AccSynthetic,

    /// Indicates that this dependence was implicitly declared in the source of the module
    /// declaration
    AccMandated,
}

/// Every bit that the module requires domain gives a meaning to.
pub const MODULE_REQUIRES_KNOWN_BITS: u16 = 0x9060;

impl ModuleRequiresFlags {
    /// The mask bit that stands for this flag.
    pub open spec fn spec_bit(self) -> u16 {
        match self {
            ModuleRequiresFlags::AccTransitive => 0x0020,
            ModuleRequiresFlags::AccStaticPhase => 0x0040,
            ModuleRequiresFlags::AccSynthetic => 0x1000,
            ModuleRequiresFlags::AccMandated => 0x8000,
        }
    }
}

/// The flags that `mask` sets, in ascending bit order; other bits are skipped.
#[verifier::opaque]
pub open spec fn module_requires_flags_of(mask: u16) -> Seq<ModuleRequiresFlags> {
    Seq::empty()
        + flag_if(mask, 0x0020, ModuleRequiresFlags::AccTransitive)
        + flag_if(mask, 0x0040, ModuleRequiresFlags::AccStaticPhase)
        + flag_if(mask, 0x1000, ModuleRequiresFlags::AccSynthetic)
        + flag_if(mask, 0x8000, ModuleRequiresFlags::AccMandated)
}

/// The bitwise OR of the masks of the flags in `flags`.
pub open spec fn module_requires_mask_of(flags: Seq<ModuleRequiresFlags>) -> u16 {
    (if flags.contains(ModuleRequiresFlags::AccTransitive) { 0x0020u16 } else { 0u16 })
        | (if flags.contains(ModuleRequiresFlags::AccStaticPhase) { 0x0040u16 } else { 0u16 })
        | (if flags.contains(ModuleRequiresFlags::AccSynthetic) { 0x1000u16 } else { 0u16 })
        | (if flags.contains(ModuleRequiresFlags::AccMandated) { 0x8000u16 } else { 0u16 })
}

impl Flags for ModuleRequiresFlags {
    type AccessFlagType = ModuleRequiresFlags;

    fn from_u16(value: u16) -> (r: Vec<ModuleRequiresFlags>)
        ensures
            r@ == module_requires_flags_of(value),
    {
        let mut flags: Vec<ModuleRequiresFlags> = Vec::new();
        push_if(&mut flags, value, 0x0020, ModuleRequiresFlags::AccTransitive);
        push_if(&mut flags, value, 0x0040, ModuleRequiresFlags::AccStaticPhase);
        push_if(&mut flags, value, 0x1000, ModuleRequiresFlags::AccSynthetic);
        push_if(&mut flags, value, 0x8000, ModuleRequiresFlags::AccMandated);
        proof {
            reveal(module_requires_flags_of);
        }
        flags
    }
}

/// A flag is among the decoded module requires flags exactly when the mask sets its bit.
pub proof fn lemma_module_requires_flags_contains(mask: u16, flag: ModuleRequiresFlags)
    ensures
        module_requires_flags_of(mask).contains(flag) == (mask & flag.spec_bit() == flag.spec_bit()),
{
    reveal(module_requires_flags_of);
    let s0 = Seq::<ModuleRequiresFlags>::empty();
    assert(!s0.contains(flag));
    lemma_contains_flag_if(s0, mask, 0x0020, ModuleRequiresFlags::AccTransitive, flag);
    let s1 = s0 + flag_if(mask, 0x0020, ModuleRequiresFlags::AccTransitive);
    lemma_contains_flag_if(s1, mask, 0x0040, ModuleRequiresFlags::AccStaticPhase, flag);
    let s2 = s1 + flag_if(mask, 0x0040, ModuleRequiresFlags::AccStaticPhase);
    lemma_contains_flag_if(s2, mask, 0x1000, ModuleRequiresFlags::AccSynthetic, flag);
    let s3 = s2 + flag_if(mask, 0x1000, ModuleRequiresFlags::AccSynthetic);
    lemma_contains_flag_if(s3, mask, 0x8000, ModuleRequiresFlags::AccMandated, flag);
    let s4 = s3 + flag_if(mask, 0x8000, ModuleRequiresFlags::AccMandated);
}

/// A mask whose only recognised module requires bit is the bit of `flag` decodes to `flag` alone,
/// whatever unrecognised bits it also sets.
pub proof fn lemma_module_requires_single_flag(mask: u16, flag: ModuleRequiresFlags)
    requires
        mask & MODULE_REQUIRES_KNOWN_BITS == flag.spec_bit(),
    ensures
        module_requires_flags_of(mask) == seq![flag],
{
    reveal(module_requires_flags_of);
    let b = flag.spec_bit();
    assert((mask & 0x0020 == 0x0020) == (b == 0x0020) && (mask & 0x0040 == 0x0040) == (b == 0x0040) && (mask & 0x1000 == 0x1000) == (b == 0x1000) && (mask & 0x8000 == 0x8000) == (b == 0x8000)) by (bit_vector)
        requires
            mask & 0x9060 == b,
            b == 0x0020 || b == 0x0040 || b == 0x1000 || b == 0x8000;
    assert(module_requires_flags_of(mask) =~= seq![flag]);
}

/// Decoding the OR of the masks of a decoded module requires flag list gives that list again.
pub proof fn lemma_module_requires_flags_reencode(mask: u16)
    ensures
        module_requires_flags_of(module_requires_mask_of(module_requires_flags_of(mask))) == module_requires_flags_of(mask),
{
    lemma_module_requires_flags_contains(mask, ModuleRequiresFlags::AccTransitive);
    lemma_module_requires_flags_contains(mask, ModuleRequiresFlags::AccStaticPhase);
    lemma_module_requires_flags_contains(mask, ModuleRequiresFlags::AccSynthetic);
    lemma_module_requires_flags_contains(mask, ModuleRequiresFlags::AccMandated);
    let m = module_requires_mask_of(module_requires_flags_of(mask));
    assert(m == (if mask & 0x0020 == 0x0020 { 0x0020u16 } else { 0u16 })
            | (if mask & 0x0040 == 0x0040 { 0x0040u16 } else { 0u16 })
            | (if mask & 0x1000 == 0x1000 { 0x1000u16 } else { 0u16 })
            | (if mask & 0x8000 == 0x8000 { 0x8000u16 } else { 0u16 }));
    assert((m & 0x0020 == 0x0020) == (mask & 0x0020 == 0x0020) && (m & 0x0040 == 0x0040) == (mask & 0x0040 == 0x0040) && (m & 0x1000 == 0x1000) == (mask & 0x1000 == 0x1000) && (m & 0x8000 == 0x8000) == (mask & 0x8000 == 0x8000)) by (bit_vector)
        requires
            m == (if mask & 0x0020 == 0x0020 { 0x0020u16 } else { 0u16 })
            | (if mask & 0x0040 == 0x0040 { 0x0040u16 } else { 0u16 })
            | (if mask & 0x1000 == 0x1000 { 0x1000u16 } else { 0u16 })
            | (if mask & 0x8000 == 0x8000 { 0x8000u16 } else { 0u16 });
    reveal(module_requires_flags_of);
}

/// Module exports flags
#[derive(Clone, Copy, Debug, PartialEq, Eq, Structural)]
pub enum ModuleExportsFlags {
    /// Indicates that this export was not explicitly or implicitly declared in the source of the
    /// module declaration
    AccSynthetic,

    /// Indicates that this export was implicitly declared in the source of the module declaration
    AccMandated,
}

/// Every bit that the module exports domain gives a meaning to.
pub const MODULE_EXPORTS_KNOWN_BITS: u16 = 0x9000;

impl ModuleExportsFlags {
    /// The mask bit that stands for this flag.
    pub open spec fn spec_bit(self) -> u16 {
        match self {
            ModuleExportsFlags::AccSynthetic => 0x1000,
            ModuleExportsFlags::AccMandated => 0x8000,
        }
    }
}

/// The flags that `mask` sets, in ascending bit order; other bits are skipped.
#[verifier::opaque]
pub open spec fn module_exports_flags_of(mask: u16) -> Seq<ModuleExportsFlags> {
    Seq::empty()
        + flag_if(mask, 0x1000, ModuleExportsFlags::AccSynthetic)
        + flag_if(mask, 0x8000, ModuleExportsFlags::AccMandated)
}

/// The bitwise OR of the masks of the flags in `flags`.
pub open spec fn module_exports_mask_of(flags: Seq<ModuleExportsFlags>) -> u16 {
    (if flags.contains(ModuleExportsFlags::AccSynthetic) { 0x1000u16 } else { 0u16 })
        | (if flags.contains(ModuleExportsFlags::AccMandated) { 0x8000u16 } else { 0u16 })
}

impl Flags for ModuleExportsFlags {
    type AccessFlagType = ModuleExportsFlags;

    fn from_u16(value: u16) -> (r: Vec<ModuleExportsFlags>)
        ensures
            r@ == module_exports_flags_of(value),
    {
        let mut flags: Vec<ModuleExportsFlags> = Vec::new();
        push_if(&mut flags, value, 0x1000, ModuleExportsFlags::AccSynthetic);
        push_if(&mut flags, value, 0x8000, ModuleExportsFlags::AccMandated);
        proof {
            reveal(module_exports_flags_of);
        }
        flags
    }
}

/// A flag is among the decoded module exports flags exactly when the mask sets its bit.
pub proof fn lemma_module_exports_flags_contains(mask: u16, flag: ModuleExportsFlags)
    ensures
        module_exports_flags_of(mask).contains(flag) == (mask & flag.spec_bit() == flag.spec_bit()),
{
    reveal(module_exports_flags_of);
    let s0 = Seq::<ModuleExportsFlags>::empty();
    assert(!s0.contains(flag));
    lemma_contains_flag_if(s0, mask, 0x1000, ModuleExportsFlags::AccSynthetic, flag);
    let s1 = s0 + flag_if(mask, 0x1000, ModuleExportsFlags::AccSynthetic);
    lemma_contains_flag_if(s1, mask, 0x8000, ModuleExportsFlags::AccMandated, flag);
    let s2 = s1 + flag_if(mask, 0x8000, ModuleExportsFlags::AccMandated);
}

/// A mask whose only recognised module exports bit is the bit of `flag` decodes to `flag` alone,
/// whatever unrecognised bits it also sets.
pub proof fn lemma_module_exports_single_flag(mask: u16, flag: ModuleExportsFlags)
    requires
        mask & MODULE_EXPORTS_KNOWN_BITS == flag.spec_bit(),
    ensures
        module_exports_flags_of(mask) == seq![flag],
{
    reveal(module_exports_flags_of);
    let b = flag.spec_bit();
    assert((mask & 0x1000 == 0x1000) == (b == 0x1000) && (mask & 0x8000 == 0x8000) == (b == 0x8000)) by (bit_vector)
        requires
            mask & 0x9000 == b,
            b == 0x1000 || b == 0x8000;
    assert(module_exports_flags_of(mask) =~= seq![flag]);
}

/// Decoding the OR of the masks of a decoded module exports flag list gives that list again.
pub proof fn lemma_module_exports_flags_reencode(mask: u16)
    ensures
        module_exports_flags_of(module_exports_mask_of(module_exports_flags_of(mask))) == module_exports_flags_of(mask),
{
    lemma_module_exports_flags_contains(mask, ModuleExportsFlags::AccSynthetic);
    lemma_module_exports_flags_contains(mask, ModuleExportsFlags::AccMandated);
    let m = module_exports_mask_of(module_exports_flags_of(mask));
    assert(m == (if mask & 0x1000 == 0x1000 { 0x1000u16 } else { 0u16 })
            | (if mask & 0x8000 == 0x8000 { 0x8000u16 } else { 0u16 }));
    assert((m & 0x1000 == 0x1000) == (mask & 0x1000 == 0x1000) && (m & 0x8000 == 0x8000) == (mask & 0x8000 == 0x8000)) by (bit_vector)
        requires
            m == (if mask & 0x1000 == 0x1000 { 0x1000u16 } else { 0u16 })
            | (if mask & 0x8000 == 0x8000 { 0x8000u16 } else { 0u16 });
    reveal(module_exports_flags_of);
}

/// Module opens flags
#[derive(Clone, Copy, Debug, PartialEq, Eq, Structural)]
pub enum ModuleOpensFlags {
    /// Indicates that this opening was not explicitly or implicitly declared in the source of the
    /// module declaration
    AccSynthetic,

    /// Indicates that this opening was implicitly declared in the source of the module declaration
    AccMandated,
}

/// Every bit that the module opens domain gives a meaning to.
pub const MODULE_OPENS_KNOWN_BITS: u16 = 0x9000;

impl ModuleOpensFlags {
    /// The mask bit that stands for this flag.
    pub open spec fn spec_bit(self) -> u16 {
        match self {
            ModuleOpensFlags::AccSynthetic => 0x1000,
            ModuleOpensFlags::AccMandated => 0x8000,
        }
    }
}

/// The flags that `mask` sets, in ascending bit order; other bits are skipped.
#[verifier::opaque]
pub open spec fn module_opens_flags_of(mask: u16) -> Seq<ModuleOpensFlags> {
    Seq::empty()
        + flag_if(mask, 0x1000, ModuleOpensFlags::AccSynthetic)
        + flag_if(mask, 0x8000, ModuleOpensFlags::AccMandated)
}

/// The bitwise OR of the masks of the flags in `flags`.
pub open spec fn module_opens_mask_of(flags: Seq<ModuleOpensFlags>) -> u16 {
    (if flags.contains(ModuleOpensFlags::AccSynthetic) { 0x1000u16 } else { 0u16 })
        | (if flags.contains(ModuleOpensFlags::AccMandated) { 0x8000u16 } else { 0u16 })
}

impl Flags for ModuleOpensFlags {
    type AccessFlagType = ModuleOpensFlags;

    fn from_u16(value: u16) -> (r: Vec<ModuleOpensFlags>)
        ensures
            r@ == module_opens_flags_of(value),
    {
        let mut flags: Vec<ModuleOpensFlags> = Vec::new();
        push_if(&mut flags, value, 0x1000, ModuleOpensFlags::AccSynthetic);
        push_if(&mut flags, value, 0x8000, ModuleOpensFlags::AccMandated);
        proof {
            reveal(module_opens_flags_of);
        }
        flags
    }
}

/// A flag is among the decoded module opens flags exactly when the mask sets its bit.
pub proof fn lemma_module_opens_flags_contains(mask: u16, flag: ModuleOpensFlags)
    ensures
        module_opens_flags_of(mask).contains(flag) == (mask & flag.spec_bit() == flag.spec_bit()),
{
    reveal(module_opens_flags_of);
    let s0 = Seq::<ModuleOpensFlags>::empty();
    assert(!s0.contains(flag));
    lemma_contains_flag_if(s0, mask, 0x1000, ModuleOpensFlags::AccSynthetic, flag);
    let s1 = s0 + flag_if(mask, 0x1000, ModuleOpensFlags::AccSynthetic);
    lemma_contains_flag_if(s1, mask, 0x8000, ModuleOpensFlags::AccMandated, flag);
    let s2 = s1 + flag_if(mask, 0x8000, ModuleOpensFlags::AccMandated);
}

/// A mask whose only recognised module opens bit is the bit of `flag` decodes to `flag` alone,
/// whatever unrecognised bits it also sets.
pub proof fn lemma_module_opens_single_flag(mask: u16, flag: ModuleOpensFlags)
    requires
        mask & MODULE_OPENS_KNOWN_BITS == flag.spec_bit(),
    ensures
        module_opens_flags_of(mask) == seq![flag],
{
    reveal(module_opens_flags_of);
    let b = flag.spec_bit();
    assert((mask & 0x1000 == 0x1000) == (b == 0x1000) && (mask & 0x8000 == 0x8000) == (b == 0x8000)) by (bit_vector)
        requires
            mask & 0x9000 == b,
            b == 0x1000 || b == 0x8000;
    assert(module_opens_flags_of(mask) =~= seq![flag]);
}

/// Decoding the OR of the masks of a decoded module opens flag list gives that list again.
pub proof fn lemma_module_opens_flags_reencode(mask: u16)
    ensures
        module_opens_flags_of(module_opens_mask_of(module_opens_flags_of(mask))) == module_opens_flags_of(mask),
{
    lemma_module_opens_flags_contains(mask, ModuleOpensFlags::AccSynthetic);
    lemma_module_opens_flags_contains(mask, ModuleOpensFlags::AccMandated);
    let m = module_opens_mask_of(module_opens_flags_of(mask));
    assert(m == (if mask & 0x1000 == 0x1000 { 0x1000u16 } else { 0u16 })
            | (if mask & 0x8000 == 0x8000 { 0x8000u16 } else { 0u16 }));
    assert((m & 0x1000 == 0x1000) == (mask & 0x1000 == 0x1000) && (m & 0x8000 == 0x8000) == (mask & 0x8000 == 0x8000)) by (bit_vector)
        requires
            m == (if mask & 0x1000 == 0x1000 { 0x1000u16 } else { 0u16 })
            | (if mask & 0x8000 == 0x8000 { 0x8000u16 } else { 0u16 });
    reveal(module_opens_flags_of);
}

} // verus!
