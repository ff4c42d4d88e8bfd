use vstd::prelude::*;
use vstd::string::StrSliceExecFns;

verus! {

/// `CS_VREDRAW`: redraw the whole window on vertical size changes.
pub const CS_VREDRAW: u32 = 0x1;

/// `CS_HREDRAW`: redraw the whole window on horizontal size changes.
pub const CS_HREDRAW: u32 = 0x2;

/// The UTF-16 code units of one character: the code point itself below
/// the supplementary planes, a surrogate pair above them.
pub open spec fn spec_utf16_units(c: char) -> Seq<u16> {
    let v = c as u32;
    if v < 0x10000 {
        seq![v as u16]
    } else {
        seq![
            (0xD800 + (v - 0x10000) / 0x400) as u16,
            (0xDC00 + (v - 0x10000) % 0x400) as u16,
        ]
    }
}

/// The UTF-16 encoding of a character sequence.
pub open spec fn spec_utf16(s: Seq<char>) -> Seq<u16>
    decreases s.len(),
{
    if s.len() == 0 {
        Seq::empty()
    } else {
        spec_utf16_units(s[0]) + spec_utf16(s.drop_first())
    }
}

/// The UTF-16 encoding with a terminating NUL unit, the form the
/// platform's wide-string APIs consume.
pub open spec fn spec_utf16z(s: Seq<char>) -> Seq<u16> {
    spec_utf16(s) + seq![0u16]
}

/// Encoding distributes over appending one character at the end.
proof fn lemma_utf16_push(s: Seq<char>, c: char)
    ensures
        spec_utf16(s.push(c)) == spec_utf16(s) + spec_utf16_units(c),
    decreases s.len(),
{
    if s.len() == 0 {
        reveal_with_fuel(spec_utf16, 2);
        assert(s.push(c).drop_first() =~= Seq::<char>::empty());
        assert(spec_utf16(s) + spec_utf16_units(c) =~= spec_utf16_units(c));
        assert(spec_utf16(s.push(c)) =~= spec_utf16_units(c));
    } else {
        lemma_utf16_push(s.drop_first(), c);
        assert(s.push(c).drop_first() =~= s.drop_first().push(c));
        assert(s.push(c)[0] == s[0]);
        assert(spec_utf16(s.push(c)) == spec_utf16_units(s[0]) + spec_utf16(s.drop_first().push(c)));
        assert(spec_utf16_units(s[0]) + (spec_utf16(s.drop_first()) + spec_utf16_units(c)) =~= (
        spec_utf16_units(s[0]) + spec_utf16(s.drop_first())) + spec_utf16_units(c));
    }
}

/// Encodes a string as NUL-terminated UTF-16, the wide form the platform
/// window APIs take class and window names in.
pub fn encode_utf16z(name: &str) -> (r: Vec<u16>)
    ensures
        r@ == spec_utf16z(name@),
{
    let mut r: Vec<u16> = Vec::new();
    let n = name.unicode_len();
    let mut i: usize = 0;
    while i < n
        invariant
            i <= n,
            n == name@.len(),
            r@ == spec_utf16(name@.take(i as int)),
        decreases n - i,
    {
        let c = name.get_char(i);
        let v = c as u32;
        if v < 0x10000 {
            r.push(v as u16);
        } else {
            let off = v - 0x10000;
            r.push((0xD800 + off / 0x400) as u16);
            r.push((0xDC00 + off % 0x400) as u16);
        }
        proof {
            lemma_utf16_push(name@.take(i as int), name@[i as int]);
            assert(name@.take(i as int + 1) =~= name@.take(i as int).push(name@[i as int]));
            assert(r@ =~= spec_utf16(name@.take(i as int)) + spec_utf16_units(name@[i as int]));
        }
        i = i + 1;
    }
    r.push(0);
    proof {
        assert(name@.take(n as int) =~= name@);
        assert(r@ =~= spec_utf16z(name@));
    }
    r
}

/// The window-class registration data: the class style, the window
/// procedure and module instance the platform supplied, and the owned
/// NUL-terminated wide class name.  Icon, cursor, background brush and
/// menu name stay null, as does the per-class and per-window extra
/// space.  Registration itself is a platform call made outside the
/// library from these fields.
pub struct WindowClassHandle {
    pub style: u32,
    pub process: u64,
    pub class_extra: i32,
    pub window_extra: i32,
    pub instance: u64,
    pub icon: u64,
    pub cursor: u64,
    pub background: u64,
    pub menu_name: u64,
    pub name: Vec<u16>,
    pub small_icon: u64,
}

impl WindowClassHandle {
    /// Builds the registration data for a class named `name_str`.  The
    /// window procedure and module instance come from the platform; the
    /// class name is encoded and owned here, so it stays alive as long
    /// as the registration data does.
    pub fn build(name_str: &str, instance: u64, process: u64) -> (h: WindowClassHandle)
        ensures
            h.style == CS_HREDRAW | CS_VREDRAW,
            h.process == process,
            h.class_extra == 0,
            h.window_extra == 0,
            h.instance == instance,
            h.icon == 0,
            h.cursor == 0,
            h.background == 0,
            h.menu_name == 0,
            h.name@ == spec_utf16z(name_str@),
            h.small_icon == 0,
    {
        let name = encode_utf16z(name_str);
        WindowClassHandle {
            style: CS_HREDRAW | CS_VREDRAW,
            process,
            class_extra: 0,
            window_extra: 0,
            instance,
            icon: 0,
            cursor: 0,
            background: 0,
            menu_name: 0,
            name,
            small_icon: 0,
        }
    }
}

} // verus!
