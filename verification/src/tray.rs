use vstd::prelude::*;
use vstd::hash_map::StringHashMap;

use crate::icon::{remembers, GeneratedIcon, IconGenerator};
use crate::protocol::{ShellOp, ShellPlan};
use crate::text::{
    encode_utf16, idle_tooltip, idle_tooltip_text, load_tooltip, load_tooltip_text, utf16,
};

verus! {

/// `WM_USER`: first message number free for a window class's own use.
pub const WM_USER: u32 = 0x0400;

/// Message the shell posts to the window when the tray icon is used.
pub const TRAY_CALLBACK_MESSAGE: u32 = WM_USER + 1;

/// Identifier of the one tray icon of the window.
pub const TRAY_ICON_ID: u32 = 1;

/// The tooltip buffer for `s`: its UTF-16 encoding cut to 127 code units,
/// followed by zeros up to the buffer's end.
pub open spec fn tooltip_units(s: Seq<char>) -> Seq<u16> {
    let w = utf16(s);
    let n = if w.len() < 127 { w.len() as int } else { 127 };
    Seq::new(128, |i: int| if i < n { w[i] } else { 0u16 })
}

/// The tooltip buffer always ends in a zero; a text of at most 127 code
/// units is kept whole and followed by zeros, a longer one is cut to its
/// first 127 code units.
pub proof fn lemma_tooltip_terminated(s: Seq<char>)
    ensures
        tooltip_units(s).len() == 128,
        tooltip_units(s)[127] == 0,
        utf16(s).len() <= 127 ==> tooltip_units(s).take(utf16(s).len() as int) == utf16(s),
        utf16(s).len() <= 127 ==> forall|i: int|
            utf16(s).len() <= i < 128 ==> tooltip_units(s)[i] == 0,
        utf16(s).len() > 127 ==> tooltip_units(s).take(127) == utf16(s).take(127),
{
    let t = tooltip_units(s);
    let w = utf16(s);
    if w.len() <= 127 {
        assert(t.take(w.len() as int) =~= w);
    } else {
        assert(t.take(127) =~= w.take(127));
    }
}

/// Every buffer in `cache` is the tooltip buffer of its text.
pub open spec fn faithful(cache: Map<Seq<char>, [u16; 128]>) -> bool {
    forall|k: Seq<char>| #[trigger] cache.contains_key(k) ==> cache[k]@ == tooltip_units(k)
}

/// Caches the tooltip buffers it has built, keyed by tooltip text.
pub struct TooltipGenerator {
    tooltip_cache: StringHashMap<[u16; 128]>,
}

impl View for TooltipGenerator {
    type V = Map<Seq<char>, [u16; 128]>;

    closed spec fn view(&self) -> Self::V {
        self.tooltip_cache@
    }
}

impl TooltipGenerator {
    /// Every cached buffer is the buffer of its key.
    #[verifier::type_invariant]
    spec fn cache_is_faithful(self) -> bool {
        faithful(self.tooltip_cache@)
    }

    /// A generator with an empty cache.
    pub fn new() -> (g: Self)
        ensures
            g@ == Map::<Seq<char>, [u16; 128]>::empty(),
            faithful(g@),
    {
        TooltipGenerator { tooltip_cache: StringHashMap::with_capacity(101) }
    }

    /// The tooltip buffer for `tooltip`, built once per distinct text: a
    /// text seen before is answered from the cache, which it leaves as it
    /// was.
    pub fn generate_tooltip(&mut self, tooltip: String) -> (buf: [u16; 128])
        ensures
            buf@ == tooltip_units(tooltip@),
            old(self)@.contains_key(tooltip@) ==> buf == old(self)@[tooltip@]
                && final(self)@ == old(self)@,
            final(self)@ == old(self)@.insert(tooltip@, buf),
            faithful(old(self)@),
            faithful(final(self)@),
    {
        proof {
            use_type_invariant(&*self);
        }
        match self.tooltip_cache.get(tooltip.as_str()) {
            Some(cached) => {
                let buf = *cached;
                proof {
                    assert(buf@ =~= tooltip_units(tooltip@));
                    assert(old(self)@.insert(tooltip@, buf) =~= old(self)@);
                }
                buf
            },
            None => {
                let buf = Self::create_tooltip_inner(&tooltip);
                let mut cache = StringHashMap::new();
                std::mem::swap(&mut cache, &mut self.tooltip_cache);
                cache.insert(tooltip, buf);
                self.tooltip_cache = cache;
                proof {
                    use_type_invariant(&*self);
                }
                buf
            },
        }
    }

    /// Builds the tooltip buffer for `tooltip`, cutting over-long text so
    /// that a terminating zero always remains.
    pub fn create_tooltip_inner(tooltip: &String) -> (buf: [u16; 128])
        ensures
            buf@ == tooltip_units(tooltip@),
    {
        let mut buf: [u16; 128] = [0u16; 128];
        let units = encode_utf16(tooltip.as_str());
        let len: usize = if units.len() < 127 { units.len() } else { 127 };
        let ghost w = utf16(tooltip@);
        for i in 0..len
            invariant
                units@ == w,
                len <= units.len(),
                len <= 127,
                buf@.len() == 128,
                forall|j: int| 0 <= j < i ==> buf@[j] == w[j],
                forall|j: int| i <= j < 128 ==> buf@[j] == 0u16,
        {
            buf[i] = units[i];
        }
        assert(buf@ =~= tooltip_units(tooltip@));
        buf
    }
}

/// `NIF_MESSAGE`: the callback message field is valid.
pub const NIF_MESSAGE: u32 = 0x1;

/// `NIF_ICON`: the icon field is valid.
pub const NIF_ICON: u32 = 0x2;

/// `NIF_TIP`: the tooltip field is valid.
pub const NIF_TIP: u32 = 0x4;

/// The fields the tray icon sends: icon, callback message and tooltip.
pub const NIF_ALL: u32 = 0x7;

/// The data the shell is given about the tray icon.
#[derive(Clone, Copy)]
pub struct NotifyIconData {
    /// The window that receives the icon's callback messages.
    pub hwnd: usize,
    /// The icon's identifier within that window.
    pub id: u32,
    /// The message sent to the window when the icon is used.
    pub callback_message: u32,
    /// The icon shown.
    pub icon: GeneratedIcon,
    /// The tooltip, zero-terminated UTF-16.
    pub tip: [u16; 128],
    /// Which of the fields above are valid.
    pub flags: u32,
}

/// `after` is `before` showing `icon` and the tooltip for a load of `value`.
pub open spec fn shows(
    after: NotifyIconData,
    before: NotifyIconData,
    icon: GeneratedIcon,
    value: u8,
) -> bool {
    &&& after.hwnd == before.hwnd
    &&& after.id == before.id
    &&& after.callback_message == before.callback_message
    &&& after.icon == icon
    &&& after.tip@ == tooltip_units(load_tooltip(value as nat))
    &&& after.flags == NIF_ALL
}

/// The notification-area icon: the load it shows, the data the shell has
/// of it, and the plan of shell calls still to make.
///
/// Its invariant (`wf`) is stated as a predicate rather than as a type
/// invariant: updating it mutably borrows its caches, whose map calls may
/// unwind, which a type invariant does not allow.
pub struct TrayIcon {
    current_value: u8,
    icon_generator: IconGenerator,
    tooltip_generator: TooltipGenerator,
    nid: NotifyIconData,
    plan: ShellPlan,
}

impl TrayIcon {
    /// The load currently shown.
    pub closed spec fn value_spec(&self) -> u8 {
        self.current_value
    }

    /// The data the shell is given.
    pub closed spec fn data(&self) -> NotifyIconData {
        self.nid
    }

    /// The icons made so far, by load.
    pub closed spec fn icons(&self) -> Map<u8, GeneratedIcon> {
        self.icon_generator@
    }

    /// The tooltip buffers built so far, by text.
    pub closed spec fn tooltips(&self) -> Map<Seq<char>, [u16; 128]> {
        self.tooltip_generator@
    }

    /// The shell calls still to make.
    pub closed spec fn plan_spec(&self) -> ShellPlan {
        self.plan
    }

    /// The icon of the shown load has been made, and it is the icon sent;
    /// every cached tooltip buffer is its text's.
    pub open spec fn wf(&self) -> bool {
        &&& self.icons().contains_key(self.value_spec())
        &&& self.data().icon == self.icons()[self.value_spec()]
        &&& faithful(self.tooltips())
    }

    /// A tray icon for window `hwnd` showing `icon` (the icon just made for
    /// a load of 0) and the tooltip `CPU`, with registration as its plan.
    pub fn new(hwnd: usize, icon: GeneratedIcon) -> (tray: TrayIcon)
        ensures
            tray.wf(),
            tray.value_spec() == 0,
            tray.data().hwnd == hwnd,
            tray.data().id == TRAY_ICON_ID,
            tray.data().callback_message == TRAY_CALLBACK_MESSAGE,
            tray.data().icon == icon,
            tray.data().tip@ == tooltip_units(idle_tooltip()),
            tray.data().flags == NIF_ALL,
            tray.icons() == Map::<u8, GeneratedIcon>::empty().insert(0, icon),
            tray.tooltips() == Map::<Seq<char>, [u16; 128]>::empty().insert(
                idle_tooltip(),
                tray.data().tip,
            ),
            tray.plan_spec() == ShellPlan::register_spec(),
    {
        let mut icon_generator = IconGenerator::new();
        let mut tooltip_generator = TooltipGenerator::new();
        let icon = icon_generator.generate(0, Some(icon));
        let tip = tooltip_generator.generate_tooltip(idle_tooltip_text());
        let nid = NotifyIconData {
            hwnd,
            id: TRAY_ICON_ID,
            callback_message: TRAY_CALLBACK_MESSAGE,
            icon,
            tip,
            flags: NIF_ICON | NIF_MESSAGE | NIF_TIP,
        };
        assert(NIF_ICON | NIF_MESSAGE | NIF_TIP == NIF_ALL) by (bit_vector);
        TrayIcon {
            current_value: 0,
            icon_generator,
            tooltip_generator,
            nid,
            plan: ShellPlan::register(),
        }
    }

    /// Whether showing `value` needs an icon to be made first: none has been
    /// made for it yet.
    pub fn needs_icon(&self, value: u8) -> (b: bool)
        ensures
            b == !self.icons().contains_key(value),
    {
        self.icon_generator.needs(value)
    }

    /// Shows a load of `value`: its icon (`made`, the icon just made for it,
    /// is supplied exactly when `needs_icon(value)` holds) and the tooltip
    /// `CPU: {value}%`; then plans a refresh, in place of any unfinished plan.
    pub fn update(&mut self, value: u8, made: Option<GeneratedIcon>)
        requires
            old(self).wf(),
            made is Some <==> !old(self).icons().contains_key(value),
        ensures
            final(self).wf(),
            final(self).value_spec() == value,
            remembers(old(self).icons(), value, final(self).data().icon, final(self).icons()),
            old(self).icons().contains_key(value) ==> final(self).icons() == old(self).icons(),
            !old(self).icons().contains_key(value) ==> made == Some(final(self).data().icon),
            shows(final(self).data(), old(self).data(), final(self).data().icon, value),
            final(self).tooltips() == old(self).tooltips().insert(
                load_tooltip(value as nat),
                final(self).data().tip,
            ),
            final(self).plan_spec() == ShellPlan::refresh_spec(),
    {
        let icon = self.icon_generator.generate(value, made);
        let tip = self.tooltip_generator.generate_tooltip(load_tooltip_text(value));
        self.nid.icon = icon;
        self.nid.tip = tip;
        self.nid.flags = NIF_ICON | NIF_MESSAGE | NIF_TIP;
        assert(NIF_ICON | NIF_MESSAGE | NIF_TIP == NIF_ALL) by (bit_vector);
        self.current_value = value;
        self.plan = ShellPlan::refresh();
    }

    /// Plans to register the icon anew (the taskbar was recreated) and to
    /// send it the data it showed before, unchanged, in place of any
    /// unfinished plan.
    pub fn restore(&mut self)
        requires
            old(self).wf(),
        ensures
            final(self).wf(),
            final(self).value_spec() == old(self).value_spec(),
            final(self).data() == old(self).data(),
            final(self).icons() == old(self).icons(),
            final(self).tooltips() == old(self).tooltips(),
            final(self).plan_spec() == ShellPlan::restore_spec(),
    {
        self.plan = ShellPlan::restore();
    }

    /// The shell call to make now with `data()`, or `None` when none is left.
    pub fn pending(&self) -> (op: Option<ShellOp>)
        ensures
            op == self.plan_spec().op_spec(),
    {
        self.plan.op()
    }

    /// Records that the pending shell call returned `ok`; the icon data and
    /// the shown load stay as they are.
    pub fn complete(&mut self, ok: bool)
        requires
            old(self).wf(),
        ensures
            final(self).wf(),
            final(self).plan_spec() == old(self).plan_spec().next_spec(ok),
            final(self).value_spec() == old(self).value_spec(),
            final(self).data() == old(self).data(),
            final(self).icons() == old(self).icons(),
            final(self).tooltips() == old(self).tooltips(),
    {
        self.plan.advance(ok);
    }

    /// The data the shell is given.
    pub fn notify_data(&self) -> (d: &NotifyIconData)
        ensures
            *d == self.data(),
    {
        &self.nid
    }

    /// The load currently shown.
    pub fn current_value(&self) -> (v: u8)
        ensures
            v == self.value_spec(),
    {
        self.current_value
    }
}

} // verus!
