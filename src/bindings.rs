//! The table of configured shortcuts, rebuilt from the settings store, and
//! the decisions taken on it: whether a shortcut may be registered, which
//! shortcuts to release when the window loses focus, and how to react when
//! one is pressed.

use vstd::prelude::*;
use vstd::string::*;
use crate::shortcut::{
    KeyCombo, KeyComboView, ShortcutActionType, MAX_SHORTCUT_KEY, action_for_slot,
    parse_shortcut, parsed_shortcut,
};
use crate::text::{decimal, decimal_text, joined};

verus! {

/// A shortcut read from settings slot `key`.
#[derive(Debug, Clone)]
pub struct ShortcutAction {
    pub shortcut: KeyCombo,
    pub key: i32,
}

pub struct ShortcutActionView {
    pub shortcut: KeyComboView,
    pub key: int,
}

impl View for ShortcutAction {
    type V = ShortcutActionView;

    open spec fn view(&self) -> ShortcutActionView {
        ShortcutActionView { shortcut: self.shortcut@, key: self.key as int }
    }
}

/// The name under which settings slot `slot` is stored.
pub open spec fn setting_key(slot: nat) -> Seq<char> {
    "shortcut_"@ + decimal(slot)
}

/// The name under which settings slot `slot` is stored: `shortcut_<slot>`.
pub fn shortcut_setting_key(slot: u32) -> (r: String)
    ensures
        r@ == setting_key(slot as nat),
{
    let digits = decimal_text(slot as u64);
    joined("shortcut_", digits.as_str())
}

/// The stored texts of the slots, as the settings gave them (`None` where
/// the slot could not be read).
pub open spec fn slot_texts(values: Seq<Option<String>>) -> Seq<Option<Seq<char>>> {
    values.map_values(|v: Option<String>| match v {
        Some(s) => Some(s@),
        None => None,
    })
}

/// The shortcuts read from the first `n` slots: a slot counts when it was
/// read, is not empty, is bound to an action and holds a valid shortcut.
pub open spec fn loaded_actions(values: Seq<Option<Seq<char>>>, n: nat) -> Seq<ShortcutActionView>
    decreases n,
{
    if n == 0 {
        Seq::empty()
    } else {
        let before = loaded_actions(values, (n - 1) as nat);
        let slot = n as int;
        match values[n - 1] {
            Some(text) => {
                if text.len() > 0 && action_for_slot(slot) is Some {
                    match parsed_shortcut(text) {
                        Some(c) => before.push(ShortcutActionView { shortcut: c, key: slot }),
                        None => before,
                    }
                } else {
                    before
                }
            },
            None => before,
        }
    }
}

/// Each slot gives at most one shortcut: the slots of the shortcuts read
/// from the first `n` slots strictly increase, from 1 to at most `n`.
pub proof fn lemma_loaded_slots_increase(values: Seq<Option<Seq<char>>>, n: nat)
    requires
        n <= values.len(),
    ensures
        forall|i: int, j: int|
            0 <= i < j < loaded_actions(values, n).len() ==> #[trigger] loaded_actions(values, n)[i].key
                < #[trigger] loaded_actions(values, n)[j].key,
        forall|i: int|
            0 <= i < loaded_actions(values, n).len() ==> 1 <= #[trigger] loaded_actions(
                values,
                n,
            )[i].key <= n,
    decreases n,
{
    if n > 0 {
        let before = loaded_actions(values, (n - 1) as nat);
        let cur = loaded_actions(values, n);
        lemma_loaded_slots_increase(values, (n - 1) as nat);
        assert(cur == before || (cur.len() == before.len() + 1 && cur.drop_last() == before
            && cur.last().key == n));
        if cur != before {
            assert forall|i: int| 0 <= i < before.len() implies cur[i] == before[i] by {
                assert(cur.drop_last()[i] == cur[i]);
            }
        }
    }
}

/// The number of slots that a list of `len` stored values fills.
pub open spec fn slots_read(len: nat) -> nat {
    if len < MAX_SHORTCUT_KEY as nat {
        len
    } else {
        MAX_SHORTCUT_KEY as nat
    }
}

/// The action that `c` triggers: that of the last shortcut equal to it,
/// as a later slot overrides an earlier one.
pub open spec fn action_of(actions: Seq<ShortcutActionView>, c: KeyComboView) -> Option<
    ShortcutActionType,
>
    decreases actions.len(),
{
    if actions.len() == 0 {
        None
    } else if actions.last().shortcut == c {
        action_for_slot(actions.last().key)
    } else {
        action_of(actions.drop_last(), c)
    }
}

/// The configured shortcuts, in slot order.
pub struct ShortcutTable {
    actions: Vec<ShortcutAction>,
}

impl View for ShortcutTable {
    type V = Seq<ShortcutActionView>;

    closed spec fn view(&self) -> Seq<ShortcutActionView> {
        self.actions@.map_values(|a: ShortcutAction| a@)
    }
}

impl ShortcutTable {
    /// Every shortcut comes from a slot bound to an action.
    pub open spec fn wf(&self) -> bool {
        forall|i: int| 0 <= i < self@.len() ==> action_for_slot(#[trigger] self@[i].key) is Some
    }

    /// A table with no shortcut.
    pub fn new() -> (r: ShortcutTable)
        ensures
            r.wf(),
            r@ == Seq::<ShortcutActionView>::empty(),
    {
        let r = ShortcutTable { actions: Vec::new() };
        assert(r@ =~= Seq::<ShortcutActionView>::empty());
        r
    }

    /// Builds the table from the stored values of slots 1, 2, ...; `values[i]`
    /// is what slot `i + 1` holds, `None` where it could not be read. Slots
    /// past the last one bound to an action are not read.
    pub fn from_settings(values: &Vec<Option<String>>) -> (r: ShortcutTable)
        ensures
            r.wf(),
            r@ == loaded_actions(slot_texts(values@), slots_read(values@.len())),
    {
        let ghost texts = slot_texts(values@);
        let limit: usize = if values.len() < 5 { values.len() } else { 5 };
        let mut actions: Vec<ShortcutAction> = Vec::new();
        let mut i: usize = 0;
        while i < limit
            invariant
                limit == slots_read(values@.len()),
                limit <= 5,
                limit <= values@.len(),
                i <= limit,
                texts == slot_texts(values@),
                actions@.map_values(|a: ShortcutAction| a@) == loaded_actions(texts, i as nat),
                forall|j: int|
                    0 <= j < actions@.len() ==> action_for_slot(#[trigger] actions@[j].key as int) is Some,
            decreases limit - i,
        {
            let slot: i32 = (i + 1) as i32;
            let ghost before = actions@.map_values(|a: ShortcutAction| a@);
            assert(texts[i as int] == match values@[i as int] {
                Some(s) => Some(s@),
                None => None::<Seq<char>>,
            });
            match &values[i] {
                Some(text) => {
                    if !text.as_str().is_empty() && ShortcutActionType::from_key(slot).is_some() {
                        match parse_shortcut(text.as_str()) {
                            Some(c) => {
                                let a = ShortcutAction { shortcut: c, key: slot };
                                actions.push(a);
                                assert(actions@.map_values(|a: ShortcutAction| a@) =~= before.push(
                                    a@,
                                ));
                            },
                            None => {},
                        }
                    }
                },
                None => {},
            }
            i = i + 1;
        }
        ShortcutTable { actions }
    }

    /// The configured shortcuts, in slot order.
    pub fn shortcuts(&self) -> (r: Vec<KeyCombo>)
        ensures
            r@.len() == self@.len(),
            forall|i: int| 0 <= i < r@.len() ==> #[trigger] r@[i]@ == self@[i].shortcut,
    {
        let mut r: Vec<KeyCombo> = Vec::new();
        let mut i: usize = 0;
        while i < self.actions.len()
            invariant
                i <= self@.len(),
                r@.len() == i,
                forall|j: int| 0 <= j < i ==> #[trigger] r@[j]@ == self@[j].shortcut,
            decreases self@.len() - i,
        {
            r.push(self.actions[i].shortcut.duplicate());
            i = i + 1;
        }
        r
    }

    /// The action that `combo` triggers, if any.
    pub fn action_for(&self, combo: &KeyCombo) -> (r: Option<ShortcutActionType>)
        requires
            self.wf(),
        ensures
            r == action_of(self@, combo@),
    {
        let mut i: usize = self.actions.len();
        assert(self@.subrange(0, i as int) =~= self@);
        while i > 0
            invariant
                i <= self@.len(),
                self.wf(),
                action_of(self@, combo@) == action_of(self@.subrange(0, i as int), combo@),
            decreases i,
        {
            let ghost prefix = self@.subrange(0, i as int);
            assert(prefix.drop_last() =~= self@.subrange(0, i - 1));
            if self.actions[i - 1].shortcut.same_as(combo) {
                return ShortcutActionType::from_key(self.actions[i - 1].key);
            }
            i = i - 1;
        }
        None
    }
}

/// Why a shortcut cannot be registered; each carries the shortcut's text.
#[derive(Debug)]
pub enum ShortcutError {
    /// The text does not describe a shortcut.
    InvalidFormat(String),
    /// Another slot already uses the shortcut.
    InUse(String),
}

impl ShortcutError {
    /// The message shown for this error.
    pub fn message(&self) -> (r: String)
        ensures
            r@ == match self {
                ShortcutError::InvalidFormat(s) => "Invalid shortcut format: "@ + s@,
                ShortcutError::InUse(s) => "快捷键 '"@ + s@ + "' 已被使用"@,
            },
    {
        match self {
            ShortcutError::InvalidFormat(s) => joined("Invalid shortcut format: ", s.as_str()),
            ShortcutError::InUse(s) => {
                let head = joined("快捷键 '", s.as_str());
                joined(head.as_str(), "' 已被使用")
            },
        }
    }
}

/// The slot number that `key` gives, if any.
pub open spec fn slot_of(key: Option<i32>) -> Option<int> {
    match key {
        Some(k) => Some(k as int),
        None => None,
    }
}

/// Whether a shortcut other than that of slot `current` already uses `c`.
pub open spec fn taken_by_other(
    actions: Seq<ShortcutActionView>,
    c: KeyComboView,
    current: Option<int>,
) -> bool {
    exists|i: int|
        0 <= i < actions.len() && Some(#[trigger] actions[i].key) != current && actions[i].shortcut
            == c
}

/// Decides whether the shortcut written `shortcut_str` may be registered for
/// slot `current_key` (`None` for no slot): it must parse, and no other
/// slot's shortcut may be the same. Returns the shortcut to register.
pub fn check_registration(
    table: &ShortcutTable,
    shortcut_str: &str,
    current_key: Option<i32>,
) -> (r: Result<KeyCombo, ShortcutError>)
    ensures
        match r {
            Ok(c) => parsed_shortcut(shortcut_str@) == Some(c@) && !taken_by_other(
                table@,
                c@,
                slot_of(current_key),
            ),
            Err(ShortcutError::InvalidFormat(s)) => s@ == shortcut_str@ && parsed_shortcut(
                shortcut_str@,
            ) is None,
            Err(ShortcutError::InUse(s)) => s@ == shortcut_str@ && (parsed_shortcut(
                shortcut_str@,
            ) matches Some(c) && taken_by_other(
                table@,
                c,
                slot_of(current_key),
            )),
        },
{
    let ghost current = slot_of(current_key);
    let combo = match parse_shortcut(shortcut_str) {
        Some(c) => c,
        None => {
            return Err(ShortcutError::InvalidFormat(String::from_str(shortcut_str)));
        },
    };
    let n = table.actions.len();
    let mut i: usize = 0;
    while i < n
        invariant
            n == table@.len(),
            i <= n,
            current == slot_of(current_key),
            parsed_shortcut(shortcut_str@) == Some(combo@),
            forall|j: int|
                0 <= j < i ==> !(Some(#[trigger] table@[j].key) != current && table@[j].shortcut
                    == combo@),
        decreases n - i,
    {
        let a = &table.actions[i];
        assert(table@[i as int] == a@);
        let other = match current_key {
            Some(k) => a.key != k,
            None => true,
        };
        if other && a.shortcut.same_as(&combo) {
            assert(table@[i as int].shortcut == combo@);
            assert(Some(table@[i as int].key) != current);
            assert(taken_by_other(table@, combo@, current));
            return Err(ShortcutError::InUse(String::from_str(shortcut_str)));
        }
        i = i + 1;
    }
    Ok(combo)
}

/// The shortcuts of `registered` to release when the window loses focus:
/// all but those that the table `all` maps to showing or hiding the
/// application.
pub open spec fn released_on_blur(
    registered: Seq<KeyComboView>,
    all: Seq<ShortcutActionView>,
) -> Seq<KeyComboView>
    decreases registered.len(),
{
    if registered.len() == 0 {
        Seq::empty()
    } else {
        let before = released_on_blur(registered.drop_last(), all);
        if action_of(all, registered.last()) == Some(ShortcutActionType::HideOrShowApp) {
            before
        } else {
            before.push(registered.last())
        }
    }
}

/// Views of a list of shortcuts.
pub open spec fn combos(v: Seq<KeyCombo>) -> Seq<KeyComboView> {
    v.map_values(|c: KeyCombo| c@)
}

impl ShortcutTable {
    /// The shortcuts of `registered` (those registered while the window
    /// had focus, as read when it was set up) to release when it loses
    /// focus, in their order; a shortcut that this table maps to showing or
    /// hiding the application stays registered.
    pub fn shortcuts_to_release(&self, registered: &Vec<KeyCombo>) -> (r: Vec<KeyCombo>)
        requires
            self.wf(),
        ensures
            combos(r@) == released_on_blur(combos(registered@), self@),
    {
        let mut r: Vec<KeyCombo> = Vec::new();
        let n = registered.len();
        let ghost all = combos(registered@);
        let mut i: usize = 0;
        while i < n
            invariant
                self.wf(),
                n == registered@.len(),
                all == combos(registered@),
                i <= n,
                combos(r@) == released_on_blur(all.subrange(0, i as int), self@),
            decreases n - i,
        {
            let ghost before = combos(r@);
            assert(all.subrange(0, i + 1).drop_last() =~= all.subrange(0, i as int));
            let c = &registered[i];
            let keeps = match self.action_for(c) {
                Some(ShortcutActionType::HideOrShowApp) => true,
                _ => false,
            };
            if !keeps {
                let d = c.duplicate();
                r.push(d);
                assert(combos(r@) =~= before.push(d@));
            }
            i = i + 1;
        }
        assert(all.subrange(0, n as int) =~= all);
        r
    }
}

/// What to do with the main window when a shortcut is pressed.
#[derive(Debug, Clone, Copy, PartialEq, Eq, Structural)]
pub enum WindowOp {
    Keep,
    Close,
    Reload,
    ShowAndFocus,
}

/// The signal sent to the front end when a shortcut is pressed.
#[derive(Debug, Clone, Copy, PartialEq, Eq, Structural)]
pub enum ShortcutSignal {
    Hide,
    Show,
    Reload,
    NewWorkflow,
    OpenSubWindow,
    /// A shortcut with no action; the front end is told which one.
    Unmapped,
}

/// The name the front end knows a signal by; `Unmapped` carries a
/// description of the shortcut instead.
pub open spec fn signal_name(s: ShortcutSignal) -> Option<Seq<char>> {
    match s {
        ShortcutSignal::Hide => Some("hide"@),
        ShortcutSignal::Show => Some("show"@),
        ShortcutSignal::Reload => Some("reload"@),
        ShortcutSignal::NewWorkflow => Some("new_workflow"@),
        ShortcutSignal::OpenSubWindow => Some("open_subwindow"@),
        ShortcutSignal::Unmapped => None,
    }
}

impl ShortcutSignal {
    /// The name the front end knows this signal by.
    pub fn name(&self) -> (r: Option<String>)
        ensures
            match r {
                Some(t) => signal_name(*self) == Some(t@),
                None => signal_name(*self) is None,
            },
    {
        match self {
            ShortcutSignal::Hide => Some(String::from_str("hide")),
            ShortcutSignal::Show => Some(String::from_str("show")),
            ShortcutSignal::Reload => Some(String::from_str("reload")),
            ShortcutSignal::NewWorkflow => Some(String::from_str("new_workflow")),
            ShortcutSignal::OpenSubWindow => Some(String::from_str("open_subwindow")),
            ShortcutSignal::Unmapped => None,
        }
    }
}

/// The reaction to a pressed shortcut: a window operation, then a signal.
#[derive(Debug, Clone, Copy, PartialEq, Eq, Structural)]
pub struct ShortcutResponse {
    pub window: WindowOp,
    pub signal: Option<ShortcutSignal>,
}

/// The reaction to shortcut `c` pressed while handling is `enabled`, given
/// whether the main window exists and what it said of its visibility.
pub open spec fn response_to(
    enabled: bool,
    actions: Seq<ShortcutActionView>,
    c: KeyComboView,
    window_present: bool,
    window_visible: Option<bool>,
) -> ShortcutResponse {
    let nothing = ShortcutResponse { window: WindowOp::Keep, signal: None };
    if !enabled {
        nothing
    } else {
        match action_of(actions, c) {
            None => ShortcutResponse { window: WindowOp::Keep, signal: Some(ShortcutSignal::Unmapped) },
            Some(ShortcutActionType::Hide) => if window_present {
                ShortcutResponse { window: WindowOp::Close, signal: Some(ShortcutSignal::Hide) }
            } else {
                nothing
            },
            Some(ShortcutActionType::Reload) => if window_present {
                ShortcutResponse { window: WindowOp::Reload, signal: Some(ShortcutSignal::Reload) }
            } else {
                nothing
            },
            Some(ShortcutActionType::NewWorkflow) => ShortcutResponse {
                window: WindowOp::Keep,
                signal: Some(ShortcutSignal::NewWorkflow),
            },
            Some(ShortcutActionType::OpenSubWindow) => ShortcutResponse {
                window: WindowOp::Keep,
                signal: Some(ShortcutSignal::OpenSubWindow),
            },
            Some(ShortcutActionType::HideOrShowApp) => if !window_present {
                nothing
            } else if window_visible.unwrap_or(true) {
                ShortcutResponse { window: WindowOp::Keep, signal: Some(ShortcutSignal::Hide) }
            } else {
                ShortcutResponse {
                    window: WindowOp::ShowAndFocus,
                    signal: Some(ShortcutSignal::Show),
                }
            },
        }
    }
}

/// Decides how to react to a pressed shortcut. Nothing happens while
/// handling is off (the shortcuts are being registered anew); a shortcut
/// with no action is reported to the front end as such.
pub fn handle_shortcut(
    enabled: bool,
    table: &ShortcutTable,
    shortcut: &KeyCombo,
    window_present: bool,
    window_visible: Option<bool>,
) -> (r: ShortcutResponse)
    requires
        table.wf(),
    ensures
        r == response_to(enabled, table@, shortcut@, window_present, window_visible),
{
    let nothing = ShortcutResponse { window: WindowOp::Keep, signal: None };
    if !enabled {
        return nothing;
    }
    match table.action_for(shortcut) {
        None => ShortcutResponse { window: WindowOp::Keep, signal: Some(ShortcutSignal::Unmapped) },
        Some(ShortcutActionType::Hide) => if window_present {
            ShortcutResponse { window: WindowOp::Close, signal: Some(ShortcutSignal::Hide) }
        } else {
            nothing
        },
        Some(ShortcutActionType::Reload) => if window_present {
            ShortcutResponse { window: WindowOp::Reload, signal: Some(ShortcutSignal::Reload) }
        } else {
            nothing
        },
        Some(ShortcutActionType::NewWorkflow) => ShortcutResponse {
            window: WindowOp::Keep,
            signal: Some(ShortcutSignal::NewWorkflow),
        },
        Some(ShortcutActionType::OpenSubWindow) => ShortcutResponse {
            window: WindowOp::Keep,
            signal: Some(ShortcutSignal::OpenSubWindow),
        },
        Some(ShortcutActionType::HideOrShowApp) => if !window_present {
            nothing
        } else if window_visible.unwrap_or(true) {
            ShortcutResponse { window: WindowOp::Keep, signal: Some(ShortcutSignal::Hide) }
        } else {
            ShortcutResponse { window: WindowOp::ShowAndFocus, signal: Some(ShortcutSignal::Show) }
        },
    }
}

} // verus!
