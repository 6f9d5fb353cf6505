//! Host text: owned terminated UTF-16 buffers, fixed arrays inside records,
//! lent addresses read through a bounded scan, and conversion to native strings.
use vstd::prelude::*;
use vstd::std_specs::iter::IteratorSpec;

verus! {

/// A host window, by its handle word.
#[derive(PartialEq, Eq, Structural, Clone, Copy, Debug)]
pub struct WindowHandle(pub isize);

/// A rectangle in device coordinates.
#[derive(PartialEq, Eq, Structural, Clone, Copy, Debug)]
pub struct Rect {
    pub left: i32,
    pub top: i32,
    pub right: i32,
    pub bottom: i32,
}

/// A point in device coordinates.
#[derive(PartialEq, Eq, Structural, Clone, Copy, Debug)]
pub struct Point {
    pub x: i32,
    pub y: i32,
}

/// A calendar date and time, field by field.
#[derive(PartialEq, Eq, Structural, Clone, Copy, Debug)]
pub struct SystemTime {
    pub year: u16,
    pub month: u16,
    pub day_of_week: u16,
    pub day: u16,
    pub hour: u16,
    pub minute: u16,
    pub second: u16,
    pub milliseconds: u16,
}

/// No unit of `u` is the zero terminator.
pub open spec fn zero_free(u: Seq<u16>) -> bool {
    forall|i: int| 0 <= i < u.len() ==> u[i] != 0
}

/// The units of `u` before its first zero unit; all of `u` when it holds none.
pub open spec fn until_zero(u: Seq<u16>) -> Seq<u16>
    decreases u.len(),
{
    if u.len() == 0 {
        u
    } else if u[0] == 0 {
        Seq::empty()
    } else {
        seq![u[0]] + until_zero(u.drop_first())
    }
}

/// A prefix of `u` that holds no zero and ends where `u` ends or at a zero unit
/// is the text before the first terminator.
pub proof fn lemma_until_zero(u: Seq<u16>, k: int)
    requires
        0 <= k <= u.len(),
        zero_free(u.take(k)),
        k == u.len() || u[k] == 0,
    ensures
        until_zero(u) == u.take(k),
    decreases k,
{
    if u.len() == 0 {
        assert(u.take(k) =~= u);
    } else if k == 0 {
        assert(u.take(0) =~= Seq::<u16>::empty());
    } else {
        assert(u.take(k)[0] == u[0]);
        let t = u.drop_first();
        assert forall|i: int| 0 <= i < k - 1 implies #[trigger] t.take(k - 1)[i] != 0 by {
            assert(t.take(k - 1)[i] == u.take(k)[i + 1]);
        }
        lemma_until_zero(t, k - 1);
        assert(u.take(k) =~= seq![u[0]] + t.take(k - 1));
    }
}

/// The text a terminated unit sequence `u` stands for is `until_zero(u)`, and
/// appending a terminator to a text without zero units is undone by it.
pub proof fn lemma_until_zero_terminated(s: Seq<u16>)
    requires
        zero_free(s),
    ensures
        until_zero(s.push(0)) == s,
{
    let u = s.push(0);
    assert(u.take(s.len() as int) =~= s);
    lemma_until_zero(u, s.len() as int);
}

/// The text before the first terminator is never longer than the units.
pub proof fn lemma_until_zero_len(u: Seq<u16>)
    ensures
        until_zero(u).len() <= u.len(),
    decreases u.len(),
{
    if u.len() > 0 && u[0] != 0 {
        lemma_until_zero_len(u.drop_first());
    }
}

/// When the first `k` units hold no zero, the text runs at least that far.
pub proof fn lemma_until_zero_at_least(u: Seq<u16>, k: int)
    requires
        0 <= k <= u.len(),
        zero_free(u.take(k)),
    ensures
        until_zero(u).len() >= k,
    decreases k,
{
    if k > 0 {
        assert(u.take(k)[0] == u[0]);
        let t = u.drop_first();
        assert forall|i: int| 0 <= i < k - 1 implies #[trigger] t.take(k - 1)[i] != 0 by {
            assert(t.take(k - 1)[i] == u.take(k)[i + 1]);
        }
        lemma_until_zero_at_least(t, k - 1);
    }
}

/// The text a buffer of units holds when a terminator stands among its first
/// `bound` units; `None` otherwise.
pub open spec fn bounded_text(u: Seq<u16>, bound: int) -> Option<Seq<u16>> {
    if until_zero(u).len() < u.len() && until_zero(u).len() < bound {
        Some(until_zero(u))
    } else {
        None
    }
}

/// A text found within a bound is shorter than the bound.
pub proof fn lemma_bounded_text_shorter(u: Seq<u16>, bound: int)
    ensures
        bounded_text(u, bound) matches Some(t) ==> t.len() < bound && zero_free(t),
{
    if until_zero(u).len() < u.len() {
        lemma_until_zero_zero_free(u);
    }
}

/// The text before the first terminator holds no zero unit.
pub proof fn lemma_until_zero_zero_free(u: Seq<u16>)
    ensures
        zero_free(until_zero(u)),
    decreases u.len(),
{
    if u.len() > 0 && u[0] != 0 {
        let t = u.drop_first();
        lemma_until_zero_zero_free(t);
        let r = seq![u[0]] + until_zero(t);
        assert forall|i: int| 0 <= i < r.len() implies r[i] != 0 by {
            if i > 0 {
                assert(r[i] == until_zero(t)[i - 1]);
            }
        }
    }
}

/// Decodes a buffer of units that the host filled: the units before the first
/// terminator, which must stand among the first `max_scan` units.
pub fn decode_bounded(units: &[u16], max_scan: usize) -> (r: Result<Vec<u16>, DecodeFailure>)
    ensures
        r matches Ok(t) ==> bounded_text(units@, max_scan as int) == Some(t@),
        r matches Err(e) ==> bounded_text(units@, max_scan as int) is None && e
            == DecodeFailure::Unterminated,
{
    let mut v: Vec<u16> = Vec::new();
    let mut i: usize = 0;
    while i < units.len() && i < max_scan && units[i] != 0
        invariant
            i <= units@.len(),
            i <= max_scan,
            v@ == units@.take(i as int),
            zero_free(v@),
        decreases units@.len() - i,
    {
        v.push(units[i]);
        i = i + 1;
        proof {
            assert(v@ =~= units@.take(i as int));
        }
    }
    if i < units.len() && i < max_scan {
        proof {
            lemma_until_zero(units@, i as int);
        }
        Ok(v)
    } else {
        proof {
            lemma_until_zero_at_least(units@, i as int);
            lemma_until_zero_len(units@);
        }
        Err(DecodeFailure::Unterminated)
    }
}

/// Why a host address could not be read as text.
#[derive(PartialEq, Eq, Structural, Clone, Copy, Debug)]
pub enum DecodeFailure {
    /// The address is null.
    NullPointer,
    /// No terminator stands within the scan bound.
    Unterminated,
}

/// The units `read` hands back for the first `m.len()` units from `address`.
pub open spec fn reads_as<F: Fn(usize, usize) -> u16>(read: F, address: usize, m: Seq<u16>) -> bool {
    forall|i: int| 0 <= i < m.len() ==> #[trigger] read.ensures((address, i as usize), m[i])
}

/// Every unit that `read` may hand back for index `i < mem.len()` from `address`
/// is `mem[i]`: the reader shows the memory `mem` there.
pub open spec fn shows<F: Fn(usize, usize) -> u16>(read: F, address: usize, mem: Seq<u16>) -> bool {
    forall|i: int, u: u16|
        0 <= i < mem.len() && #[trigger] read.ensures((address, i as usize), u) ==> u == mem[i]
}

/// `r` is a result that a scan of at most `bound` units from `address`, read
/// through `read`, may give: the text before a terminator that `read` showed
/// within the bound, or a failure when the address is null or every unit within
/// the bound was not zero.
pub open spec fn decoded_from<F: Fn(usize, usize) -> u16>(
    read: F,
    address: usize,
    bound: usize,
    r: Result<Seq<u16>, DecodeFailure>,
) -> bool {
    match r {
        Ok(t) => address != 0 && t.len() < bound && zero_free(t) && reads_as(read, address, t)
            && read.ensures((address, t.len() as usize), 0u16),
        Err(DecodeFailure::NullPointer) => address == 0,
        Err(DecodeFailure::Unterminated) => address != 0 && exists|m: Seq<u16>|
            m.len() == bound && zero_free(m) && reads_as(read, address, m),
    }
}

/// A null-terminated UTF-16 text owned by the plugin.
#[derive(Debug)]
pub struct WideString(pub Vec<u16>);

impl WideString {
    /// The text this buffer stands for: its units before the first terminator.
    pub open spec fn text(&self) -> Seq<u16> {
        until_zero(self.0@)
    }

    /// The buffer ends with a terminator.
    pub open spec fn wf(&self) -> bool {
        self.0@.len() > 0 && self.0@.last() == 0
    }

    /// The empty text, as a buffer holding only the terminator.
    pub fn new() -> (r: WideString)
        ensures
            r.wf(),
            r.0@ == seq![0u16],
            r.text() == Seq::<u16>::empty(),
    {
        let mut v: Vec<u16> = Vec::new();
        v.push(0u16);
        let r = WideString(v);
        proof {
            lemma_until_zero_terminated(Seq::<u16>::empty());
            assert(r.0@ =~= Seq::<u16>::empty().push(0));
            assert(r.0@ =~= seq![0u16]);
        }
        r
    }

    /// A terminated buffer holding `units` up to their first zero unit.
    pub fn from_units(units: &[u16]) -> (r: WideString)
        ensures
            r.wf(),
            r.text() == until_zero(units@),
            r.0@ == until_zero(units@).push(0),
    {
        let mut v: Vec<u16> = Vec::new();
        let mut i: usize = 0;
        while i < units.len() && units[i] != 0
            invariant
                i <= units@.len(),
                v@ == units@.take(i as int),
                zero_free(v@),
            decreases units@.len() - i,
        {
            v.push(units[i]);
            i = i + 1;
            proof {
                assert(v@ =~= units@.take(i as int));
            }
        }
        proof {
            lemma_until_zero(units@, i as int);
        }
        let ghost t = v@;
        v.push(0u16);
        let r = WideString(v);
        proof {
            assert(r.0@.drop_last() =~= t);
            lemma_until_zero_terminated(t);
        }
        r
    }

    /// The units of the text, without the terminator.
    pub fn to_units(&self) -> (r: Vec<u16>)
        ensures
            r@ == self.text(),
    {
        let mut v: Vec<u16> = Vec::new();
        let mut i: usize = 0;
        while i < self.0.len() && self.0[i] != 0
            invariant
                i <= self.0@.len(),
                v@ == self.0@.take(i as int),
                zero_free(v@),
            decreases self.0@.len() - i,
        {
            v.push(self.0[i]);
            i = i + 1;
            proof {
                assert(v@ =~= self.0@.take(i as int));
            }
        }
        proof {
            lemma_until_zero(self.0@, i as int);
        }
        v
    }
}

impl Default for WideString {
    /// The empty text.
    fn default() -> (r: WideString)
        ensures
            r.wf(),
            r.0@ == seq![0u16],
    {
        WideString::new()
    }
}

/// A text in a fixed array of `N` units inside a host record. A zero unit ends
/// it; without one, all `N` units are the text.
#[derive(Clone, Copy, Debug)]
pub struct FixedWideString<const N: usize>(pub [u16; N]);

impl<const N: usize> FixedWideString<N> {
    /// The text the array holds.
    pub open spec fn text(&self) -> Seq<u16> {
        until_zero(self.0@)
    }

    /// An array of `N` zero units: the empty text.
    pub fn empty() -> (r: FixedWideString<N>)
        ensures
            forall|i: int| 0 <= i < N ==> r.0@[i] == 0,
            r.text() == Seq::<u16>::empty(),
    {
        let r = FixedWideString([0u16; N]);
        proof {
            if N > 0 {
                assert(r.0@.take(0) =~= Seq::<u16>::empty());
                lemma_until_zero(r.0@, 0);
            } else {
                assert(r.0@ =~= Seq::<u16>::empty());
            }
        }
        r
    }

    /// Copies the text out as a terminated buffer. Never fails: without a
    /// terminator the whole array is the text.
    pub fn to_wide_string(&self) -> (r: WideString)
        ensures
            r.wf(),
            r.text() == self.text(),
            r.0@ == self.text().push(0),
    {
        WideString::from_units(self.0.as_slice())
    }
}

impl<const N: usize> Default for FixedWideString<N> {
    /// An array of `N` zero units.
    fn default() -> (r: FixedWideString<N>)
        ensures
            forall|i: int| 0 <= i < N ==> r.0@[i] == 0,
    {
        FixedWideString::empty()
    }
}

/// The address of a null-terminated UTF-16 text that the host lends for the
/// length of one call. Zero is the null address.
#[derive(PartialEq, Eq, Structural, Clone, Copy, Debug)]
pub struct WideStringPtr(pub usize);

impl WideStringPtr {
    /// The null address.
    pub fn null() -> (r: WideStringPtr)
        ensures
            r.0 == 0,
    {
        WideStringPtr(0)
    }

    /// The number of units before the terminator of the lent text, scanned
    /// as [`WideStringPtr::read_units`] does.
    pub fn get_length<F: Fn(usize, usize) -> u16>(&self, max_scan: usize, read: &F) -> (r: Result<
        usize,
        DecodeFailure,
    >)
        requires
            forall|i: usize| i < max_scan ==> #[trigger] read.requires((self.0, i)),
        ensures
            r matches Err(e) ==> decoded_from(*read, self.0, max_scan, Err(e)),
            r matches Ok(n) ==> exists|t: Seq<u16>|
                decoded_from(*read, self.0, max_scan, Ok(t)) && t.len() == n,
    {
        match self.read_units(max_scan, read) {
            Ok(units) => {
                assert(decoded_from(*read, self.0, max_scan, Ok(units@)));
                Ok(units.len())
            },
            Err(e) => Err(e),
        }
    }

    /// Whether this is the null address.
    pub fn is_null(&self) -> (r: bool)
        ensures
            r == (self.0 == 0),
    {
        self.0 == 0
    }

    /// Scans the lent text through `read`, which hands back the unit at an index
    /// from an address. At most `max_scan` units are read: a text whose
    /// terminator does not stand among them fails, as does the null address.
    pub fn read_units<F: Fn(usize, usize) -> u16>(&self, max_scan: usize, read: &F) -> (r: Result<
        Vec<u16>,
        DecodeFailure,
    >)
        requires
            forall|i: usize| i < max_scan ==> #[trigger] read.requires((self.0, i)),
        ensures
            decoded_from(*read, self.0, max_scan, match r {
                Ok(v) => Ok(v@),
                Err(e) => Err(e),
            }),
    {
        if self.0 == 0 {
            return Err(DecodeFailure::NullPointer);
        }
        let mut v: Vec<u16> = Vec::new();
        let mut i: usize = 0;
        while i < max_scan
            invariant
                self.0 != 0,
                i <= max_scan,
                v@.len() == i,
                zero_free(v@),
                reads_as(*read, self.0, v@),
                forall|j: usize| j < max_scan ==> #[trigger] read.requires((self.0, j)),
            decreases max_scan - i,
        {
            let u = read(self.0, i);
            if u == 0 {
                return Ok(v);
            }
            v.push(u);
            i = i + 1;
            proof {
                assert forall|j: int| 0 <= j < v@.len() implies #[trigger] read.ensures(
                    (self.0, j as usize),
                    v@[j],
                ) by {
                    if j < v@.len() - 1 {
                        assert(v@[j] == v@.drop_last()[j]);
                    }
                }
            }
        }
        Err(DecodeFailure::Unterminated)
    }

    /// Copies the lent text into a terminated buffer of the plugin's own, under
    /// the same bound as [`WideStringPtr::read_units`].
    pub fn read_wide_string<F: Fn(usize, usize) -> u16>(&self, max_scan: usize, read: &F) -> (r:
        Result<WideString, DecodeFailure>)
        requires
            forall|i: usize| i < max_scan ==> #[trigger] read.requires((self.0, i)),
        ensures
            r matches Ok(w) ==> w.wf(),
            decoded_from(*read, self.0, max_scan, match r {
                Ok(w) => Ok(w.text()),
                Err(e) => Err(e),
            }),
    {
        match self.read_units(max_scan, read) {
            Ok(units) => {
                let w = WideString::from_units(units.as_slice());
                proof {
                    lemma_until_zero(units@, units@.len() as int);
                    assert(units@.take(units@.len() as int) =~= units@);
                }
                Ok(w)
            },
            Err(e) => Err(e),
        }
    }
}

impl WideStringPtr {
    /// Reads the lent text as a native string, under the same bound as
    /// [`WideStringPtr::read_units`].
    pub fn read_string<F: Fn(usize, usize) -> u16>(&self, max_scan: usize, read: &F) -> (r: Result<
        String,
        DecodeFailure,
    >)
        requires
            forall|i: usize| i < max_scan ==> #[trigger] read.requires((self.0, i)),
        ensures
            r matches Err(e) ==> decoded_from(*read, self.0, max_scan, Err(e)),
            r matches Ok(text) ==> exists|t: Seq<u16>|
                decoded_from(*read, self.0, max_scan, Ok(t)) && utf16_of(text@) == lossy_utf16(t) && (forall|
                    s: Seq<char>,
                | #[trigger] utf16_of(s) == t ==> text@ == s) && utf16_of(text@).len() == t.len(),
    {
        match self.read_units(max_scan, read) {
            Ok(units) => {
                let text = decode_utf16(units.as_slice());
                proof {
                    lemma_lossy_len(units@);
                }
                Ok(text)
            },
            Err(e) => Err(e),
        }
    }
}

/// Decoding through a reader that shows the terminated encoding of a text
/// without zero units, with a bound past its terminator, gives back exactly that
/// text, whatever outcome the scan may have.
pub proof fn lemma_borrowed_round_trip<F: Fn(usize, usize) -> u16>(
    s: Seq<u16>,
    read: F,
    address: usize,
    bound: usize,
    r: Result<Seq<u16>, DecodeFailure>,
)
    requires
        zero_free(s),
        address != 0,
        bound >= s.len() + 1,
        shows(read, address, s.push(0)),
        decoded_from(read, address, bound, r),
    ensures
        r == Ok::<Seq<u16>, DecodeFailure>(s),
{
    let mem = s.push(0);
    match r {
        Ok(t) => {
            if t.len() > s.len() {
                assert(read.ensures((address, s.len() as usize), t[s.len() as int]));
                assert(mem[s.len() as int] == 0);
            } else if t.len() < s.len() {
                assert(mem[t.len() as int] == s[t.len() as int]);
            } else {
                assert forall|i: int| 0 <= i < t.len() implies t[i] == s[i] by {
                    assert(read.ensures((address, i as usize), t[i]));
                    assert(mem[i] == s[i]);
                }
                assert(t =~= s);
            }
        },
        Err(DecodeFailure::NullPointer) => {},
        Err(DecodeFailure::Unterminated) => {
            let m = choose|m: Seq<u16>| m.len() == bound && zero_free(m) && reads_as(read, address, m);
            assert(read.ensures((address, s.len() as usize), m[s.len() as int]));
            assert(mem[s.len() as int] == 0);
        },
    }
}

/// A scan whose bound ends before any zero unit that the reader shows fails as
/// unterminated: nothing past the bound decides the outcome.
pub proof fn lemma_bounded_scan<F: Fn(usize, usize) -> u16>(
    mem: Seq<u16>,
    read: F,
    address: usize,
    bound: usize,
    r: Result<Seq<u16>, DecodeFailure>,
)
    requires
        address != 0,
        bound < mem.len(),
        zero_free(mem),
        shows(read, address, mem),
        decoded_from(read, address, bound, r),
    ensures
        r == Err::<Seq<u16>, DecodeFailure>(DecodeFailure::Unterminated),
{
    match r {
        Ok(t) => {
            assert(read.ensures((address, t.len() as usize), 0u16));
            assert(mem[t.len() as int] != 0);
        },
        Err(_) => {},
    }
}

/// The UTF-16 code units of one character: the scalar value itself below
/// 0x10000, a surrogate pair otherwise.
pub open spec fn char_utf16(c: char) -> Seq<u16> {
    let v = c as u32;
    if v < 0x1_0000 {
        seq![v as u16]
    } else {
        seq![(0xD800 + (v - 0x1_0000) / 0x400) as u16, (0xDC00 + (v - 0x1_0000) % 0x400) as u16]
    }
}

/// The UTF-16 code units of a text.
pub open spec fn utf16_of(s: Seq<char>) -> Seq<u16>
    decreases s.len(),
{
    if s.len() == 0 {
        Seq::empty()
    } else {
        utf16_of(s.drop_last()) + char_utf16(s.last())
    }
}

/// No character of `s` is NUL.
pub open spec fn nul_free(s: Seq<char>) -> bool {
    forall|i: int| 0 <= i < s.len() ==> (s[i] as u32) != 0
}

/// The units of one character, as [`char_utf16`] gives them.
fn push_char_utf16(v: &mut Vec<u16>, c: char)
    ensures
        final(v)@ == old(v)@ + char_utf16(c),
{
    let x = c as u32;
    if x < 0x1_0000 {
        v.push(x as u16);
    } else {
        assert(x <= 0x10_FFFF);
        let w = x - 0x1_0000;
        v.push((0xD800 + w / 0x400) as u16);
        v.push((0xDC00 + w % 0x400) as u16);
    }
    assert(final(v)@ =~= old(v)@ + char_utf16(c));
}

/// A text without NUL encodes to units without zero.
pub proof fn lemma_utf16_zero_free(s: Seq<char>)
    requires
        nul_free(s),
    ensures
        zero_free(utf16_of(s)),
    decreases s.len(),
{
    if s.len() > 0 {
        let p = s.drop_last();
        assert(nul_free(p)) by {
            assert forall|i: int| 0 <= i < p.len() implies (p[i] as u32) != 0 by {
                assert(p[i] == s[i]);
            }
        }
        lemma_utf16_zero_free(p);
        let c = s.last();
        assert((c as u32) != 0);
        vstd::utf8::char_is_scalar(c);
        assert((c as u32) <= 0x10_FFFF);
        let u = utf16_of(s);
        assert(u == utf16_of(p) + char_utf16(c));
        assert forall|i: int| 0 <= i < u.len() implies u[i] != 0 by {
            if i >= utf16_of(p).len() {
                assert(u[i] == char_utf16(c)[i - utf16_of(p).len()]);
            }
        }
    }
}

/// A unit that opens a surrogate pair.
pub open spec fn is_high_surrogate(x: u16) -> bool {
    0xD800 <= x < 0xDC00
}

/// A unit that closes a surrogate pair.
pub open spec fn is_low_surrogate(x: u16) -> bool {
    0xDC00 <= x < 0xE000
}

/// The units `u` with every surrogate that is not part of a high-low pair
/// replaced by the replacement character U+FFFD: the UTF-16 encoding of what
/// a lossy decoding of `u` gives.
pub open spec fn lossy_utf16(u: Seq<u16>) -> Seq<u16>
    decreases u.len(),
{
    if u.len() == 0 {
        u
    } else if u.len() >= 2 && is_high_surrogate(u[0]) && is_low_surrogate(u[1]) {
        seq![u[0], u[1]] + lossy_utf16(u.subrange(2, u.len() as int))
    } else if is_high_surrogate(u[0]) || is_low_surrogate(u[0]) {
        seq![0xFFFDu16] + lossy_utf16(u.drop_first())
    } else {
        seq![u[0]] + lossy_utf16(u.drop_first())
    }
}

/// A lossy decoding keeps the number of units: each replaced unit becomes one.
pub proof fn lemma_lossy_len(u: Seq<u16>)
    ensures
        lossy_utf16(u).len() == u.len(),
    decreases u.len(),
{
    if u.len() == 0 {
    } else if u.len() >= 2 && is_high_surrogate(u[0]) && is_low_surrogate(u[1]) {
        lemma_lossy_len(u.subrange(2, u.len() as int));
    } else {
        lemma_lossy_len(u.drop_first());
    }
}

/// The UTF-16 code units of `s`.
fn encode_utf16(s: &str) -> (r: Vec<u16>)
    ensures
        r@ == utf16_of(s@),
        nul_free(s@) ==> zero_free(r@),
{
    broadcast use vstd::string::axiom_spec_iter, vstd::string::next_postcondition;
    let mut it = s.chars();
    let mut v: Vec<u16> = Vec::new();
    let ghost mut done: Seq<char> = Seq::empty();
    loop
        invariant
            it.obeys_prophetic_iter_laws(),
            done + it.remaining() == s@,
            v@ == utf16_of(done),
        ensures
            v@ == utf16_of(s@),
        decreases s@.len() - done.len(),
    {
        let ghost before = it.remaining();
        match it.next() {
            Some(c) => {
                proof {
                    assert(done.push(c).drop_last() =~= done);
                    assert(done.push(c) + it.remaining() =~= s@) by {
                        assert(before =~= seq![c] + it.remaining());
                    }
                    done = done.push(c);
                }
                push_char_utf16(&mut v, c);
            },
            None => {
                assert(done =~= s@);
                break;
            },
        }
    }
    proof {
        if nul_free(s@) {
            lemma_utf16_zero_free(s@);
        }
    }
    v
}

/// Relies on `String::from_utf16_lossy`: decodes UTF-16 code units, each
/// unpaired surrogate becoming the replacement character U+FFFD, so that the
/// result encodes back to `lossy_utf16(u)`, and the encoding of a text decodes
/// back to that text.
#[verifier::external_body]
fn decode_utf16(u: &[u16]) -> (r: String)
    ensures
        utf16_of(r@) == lossy_utf16(u@),
        forall|s: Seq<char>| #[trigger] utf16_of(s) == u@ ==> r@ == s,
{
    String::from_utf16_lossy(u)
}

/// Conversion of a native or UTF-16 text into a terminated buffer of the plugin.
pub trait IntoWideString {
    /// The terminated buffer: every unit of the text, in order, then a
    /// terminator where the text does not already end with one.
    fn into_wide_string(self) -> (r: WideString)
        ensures
            r.wf(),
    ;
}

/// `u` with a terminator appended, unless it already ends with one.
pub open spec fn terminated(u: Seq<u16>) -> Seq<u16> {
    if u.len() > 0 && u.last() == 0 {
        u
    } else {
        u.push(0)
    }
}

/// A copy of `units` that ends with a terminator, appended where missing.
fn terminated_copy(units: &[u16]) -> (r: WideString)
    ensures
        r.wf(),
        r.0@ == terminated(units@),
{
    let mut v: Vec<u16> = Vec::new();
    let mut i: usize = 0;
    while i < units.len()
        invariant
            i <= units@.len(),
            v@ == units@.take(i as int),
        decreases units@.len() - i,
    {
        v.push(units[i]);
        i = i + 1;
        proof {
            assert(v@ =~= units@.take(i as int));
        }
    }
    assert(v@ =~= units@);
    if units.len() == 0 || units[units.len() - 1] != 0 {
        v.push(0u16);
    }
    WideString(v)
}

impl<'a> IntoWideString for &'a str {
    fn into_wide_string(self) -> (r: WideString)
        ensures
            r.wf(),
            r.0@ == utf16_of(self@).push(0),
            nul_free(self@) ==> r.text() == utf16_of(self@),
    {
        let mut units = encode_utf16(self);
        proof {
            if nul_free(self@) {
                lemma_until_zero_terminated(units@);
            }
        }
        units.push(0u16);
        WideString(units)
    }
}

impl IntoWideString for String {
    fn into_wide_string(self) -> (r: WideString)
        ensures
            r.wf(),
            r.0@ == utf16_of(self@).push(0),
            nul_free(self@) ==> r.text() == utf16_of(self@),
    {
        self.as_str().into_wide_string()
    }
}

impl<'a> IntoWideString for &'a [u16] {
    fn into_wide_string(self) -> (r: WideString)
        ensures
            r.wf(),
            r.0@ == terminated(self@),
    {
        terminated_copy(self)
    }
}

impl IntoWideString for Vec<u16> {
    fn into_wide_string(self) -> (r: WideString)
        ensures
            r.wf(),
            r.0@ == terminated(self@),
    {
        terminated_copy(self.as_slice())
    }
}

/// Conversion of a UTF-16 text into a native string.
pub trait IntoRustString {
    /// The native string.
    fn into_string(self) -> String;
}

impl IntoRustString for WideString {
    fn into_string(self) -> (r: String)
        ensures
            utf16_of(r@) == lossy_utf16(self.text()),
            forall|s: Seq<char>| #[trigger] utf16_of(s) == self.text() ==> r@ == s,
            utf16_of(r@).len() == self.text().len(),
    {
        let units = self.to_units();
        proof {
            lemma_lossy_len(units@);
        }
        decode_utf16(units.as_slice())
    }
}

impl<'a> IntoRustString for &'a [u16] {
    fn into_string(self) -> (r: String)
        ensures
            utf16_of(r@) == lossy_utf16(until_zero(self@)),
            forall|s: Seq<char>| #[trigger] utf16_of(s) == until_zero(self@) ==> r@ == s,
            utf16_of(r@).len() == until_zero(self@).len(),
    {
        WideString::from_units(self).into_string()
    }
}

impl IntoRustString for Vec<u16> {
    fn into_string(self) -> (r: String)
        ensures
            utf16_of(r@) == lossy_utf16(until_zero(self@)),
            forall|s: Seq<char>| #[trigger] utf16_of(s) == until_zero(self@) ==> r@ == s,
            utf16_of(r@).len() == until_zero(self@).len(),
    {
        WideString::from_units(self.as_slice()).into_string()
    }
}

impl<const N: usize> IntoRustString for FixedWideString<N> {
    fn into_string(self) -> (r: String)
        ensures
            utf16_of(r@) == lossy_utf16(self.text()),
            forall|s: Seq<char>| #[trigger] utf16_of(s) == self.text() ==> r@ == s,
            utf16_of(r@).len() == self.text().len(),
    {
        self.to_wide_string().into_string()
    }
}

impl Default for WideStringPtr {
    /// The null address.
    fn default() -> (r: WideStringPtr)
        ensures
            r.0 == 0,
    {
        WideStringPtr(0)
    }
}

/// A fixed array without a terminator holds a text of its full capacity.
pub proof fn lemma_fixed_full_capacity<const N: usize>(f: FixedWideString<N>)
    requires
        zero_free(f.0@),
    ensures
        f.text() == f.0@,
        f.text().len() == N,
{
    assert(f.0@.take(N as int) =~= f.0@);
    lemma_until_zero(f.0@, N as int);
}

/// Packs two 16-bit values into one 32-bit word, `low` in the low half.
pub fn make_long(low: u16, high: u16) -> (r: u32)
    ensures
        r == low + high * 0x1_0000,
{
    let a = low as u32;
    let b = high as u32;
    assert((a & 0xFFFFu32) | ((b & 0xFFFFu32) << 16u32) == a + b * 0x1_0000) by (bit_vector)
        requires a < 0x1_0000, b < 0x1_0000;
    (a & 0xFFFFu32) | ((b & 0xFFFFu32) << 16u32)
}

/// The machine word that carries `make_long(low, high)`.
pub fn make_lparam(low: u16, high: u16) -> (r: isize)
    ensures
        r == (low + high * 0x1_0000) as isize,
{
    make_long(low, high) as isize
}

} // verus!
