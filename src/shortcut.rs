//! Keyboard shortcuts: the actions they trigger, and their text form
//! `"Control + Shift + KeyA"`.

use vstd::prelude::*;
use vstd::string::*;
use crate::text::{
    lemma_split_first_word, lemma_split_from_nonempty, lemma_split_single, same_text, split_seq,
    split_text, texts,
};

verus! {

/// What a configured shortcut does.
#[derive(Debug, Clone, Copy, PartialEq, Eq, Structural)]
pub enum ShortcutActionType {
    Hide,
    Reload,
    NewWorkflow,
    OpenSubWindow,
    HideOrShowApp,
}

/// The highest settings slot that holds a shortcut; slots are numbered from 1.
pub const MAX_SHORTCUT_KEY: i32 = 5;

/// The action bound to settings slot `key`.
pub open spec fn action_for_slot(key: int) -> Option<ShortcutActionType> {
    if key == 1 {
        Some(ShortcutActionType::Hide)
    } else if key == 2 {
        Some(ShortcutActionType::HideOrShowApp)
    } else if key == 3 {
        Some(ShortcutActionType::Reload)
    } else if key == 4 {
        Some(ShortcutActionType::NewWorkflow)
    } else if key == 5 {
        Some(ShortcutActionType::OpenSubWindow)
    } else {
        None
    }
}

impl ShortcutActionType {
    /// The action bound to settings slot `key`, if the slot exists.
    pub fn from_key(key: i32) -> (r: Option<ShortcutActionType>)
        ensures
            r == action_for_slot(key as int),
    {
        match key {
            1 => Some(ShortcutActionType::Hide),
            2 => Some(ShortcutActionType::HideOrShowApp),
            3 => Some(ShortcutActionType::Reload),
            4 => Some(ShortcutActionType::NewWorkflow),
            5 => Some(ShortcutActionType::OpenSubWindow),
            _ => None,
        }
    }
}

/// The modifier keys held with a shortcut.
#[derive(Debug, Clone, Copy, PartialEq, Eq, Structural)]
pub struct ModifierSet {
    pub control: bool,
    pub alt: bool,
    pub shift: bool,
    pub meta: bool,
    pub super_key: bool,
}

/// A modifier that a shortcut's text can name.
#[derive(Debug, Clone, Copy, PartialEq, Eq, Structural)]
pub enum ModifierKind {
    Control,
    Meta,
    Alt,
    Shift,
}

impl ModifierSet {
    pub open spec fn empty_spec() -> ModifierSet {
        ModifierSet { control: false, alt: false, shift: false, meta: false, super_key: false }
    }

    /// No modifier held.
    pub fn empty() -> (r: ModifierSet)
        ensures
            r == ModifierSet::empty_spec(),
    {
        ModifierSet { control: false, alt: false, shift: false, meta: false, super_key: false }
    }

    pub open spec fn is_empty_spec(self) -> bool {
        self == ModifierSet::empty_spec()
    }

    /// Whether no modifier is held.
    pub fn is_empty(&self) -> (r: bool)
        ensures
            r == self.is_empty_spec(),
    {
        !self.control && !self.alt && !self.shift && !self.meta && !self.super_key
    }

    pub open spec fn with_spec(self, k: ModifierKind) -> ModifierSet {
        match k {
            ModifierKind::Control => ModifierSet { control: true, ..self },
            ModifierKind::Meta => ModifierSet { meta: true, ..self },
            ModifierKind::Alt => ModifierSet { alt: true, ..self },
            ModifierKind::Shift => ModifierSet { shift: true, ..self },
        }
    }

    /// This set with `k` added.
    pub fn with(self, k: ModifierKind) -> (r: ModifierSet)
        ensures
            r == self.with_spec(k),
    {
        match k {
            ModifierKind::Control => ModifierSet { control: true, ..self },
            ModifierKind::Meta => ModifierSet { meta: true, ..self },
            ModifierKind::Alt => ModifierSet { alt: true, ..self },
            ModifierKind::Shift => ModifierSet { shift: true, ..self },
        }
    }
}

/// The modifier that a lowercased word of a shortcut's text names.
pub open spec fn modifier_of(word: Seq<char>) -> Option<ModifierKind> {
    if word == "control"@ {
        Some(ModifierKind::Control)
    } else if word == "meta"@ || word == "super"@ {
        Some(ModifierKind::Meta)
    } else if word == "alt"@ {
        Some(ModifierKind::Alt)
    } else if word == "shift"@ {
        Some(ModifierKind::Shift)
    } else {
        None
    }
}

/// The modifier named by `lowered`, a word of a shortcut's text already
/// lowercased; other words name none.
pub fn modifier_for_word(lowered: &str) -> (r: Option<ModifierKind>)
    ensures
        r == modifier_of(lowered@),
{
    if same_text(lowered, "control") {
        Some(ModifierKind::Control)
    } else if same_text(lowered, "meta") || same_text(lowered, "super") {
        Some(ModifierKind::Meta)
    } else if same_text(lowered, "alt") {
        Some(ModifierKind::Alt)
    } else if same_text(lowered, "shift") {
        Some(ModifierKind::Shift)
    } else {
        None
    }
}

/// What `str::to_lowercase` returns for `s`.
pub uninterp spec fn lower_of(s: Seq<char>) -> Seq<char>;

/// Relies on `str::to_lowercase`: the result depends on the characters alone.
#[verifier::external_body]
fn lowercase(s: &str) -> (r: String)
    ensures
        r@ == lower_of(s@),
{
    s.to_lowercase()
}

/// The canonical name of the key code that `s` names, if it names one.
pub uninterp spec fn key_code_name(s: Seq<char>) -> Option<Seq<char>>;

/// Relies on `keyboard_types::Code`: its `FromStr` reads a key code from its
/// name (a few older names are accepted too) and its `Display` writes the
/// code's canonical name, which reads back as the same code.
#[verifier::external_body]
fn key_code(name: &str) -> (r: Option<String>)
    ensures
        match r {
            Some(k) => key_code_name(name@) == Some(k@) && key_code_name(k@) == Some(k@),
            None => key_code_name(name@) is None,
        },
{
    name.parse::<keyboard_types::Code>().ok().map(|c| c.to_string())
}

/// A key with its modifiers, the key given by its canonical code name.
#[derive(Debug, Clone)]
pub struct KeyCombo {
    pub modifiers: ModifierSet,
    pub key: String,
}

pub struct KeyComboView {
    pub modifiers: ModifierSet,
    pub key: Seq<char>,
}

impl View for KeyCombo {
    type V = KeyComboView;

    open spec fn view(&self) -> KeyComboView {
        KeyComboView { modifiers: self.modifiers, key: self.key@ }
    }
}

impl KeyCombo {
    /// Whether two combos have the same modifiers and key.
    pub fn same_as(&self, other: &KeyCombo) -> (r: bool)
        ensures
            r == (self@ == other@),
    {
        self.modifiers == other.modifiers && self.key == other.key
    }

    /// A copy of this combo.
    pub fn duplicate(&self) -> (r: KeyCombo)
        ensures
            r@ == self@,
    {
        KeyCombo { modifiers: self.modifiers, key: String::from_str(self.key.as_str()) }
    }
}

/// The separator between the words of a shortcut's text.
pub open spec fn separator() -> Seq<char> {
    " + "@
}

/// The modifiers that the words in `words` name, once lowercased.
pub open spec fn modifiers_named(words: Seq<Seq<char>>) -> ModifierSet
    decreases words.len(),
{
    if words.len() == 0 {
        ModifierSet::empty_spec()
    } else {
        let rest = modifiers_named(words.drop_last());
        match modifier_of(lower_of(words.last())) {
            Some(k) => rest.with_spec(k),
            None => rest,
        }
    }
}

/// The shortcut that text `s` describes: its words are separated by `" + "`,
/// the last names the key and the others the modifiers, unknown words among
/// them being passed over; no shortcut without a known key or a modifier.
pub open spec fn parsed_shortcut(s: Seq<char>) -> Option<KeyComboView> {
    let words = split_seq(s, separator());
    match key_code_name(words.last()) {
        Some(key) => {
            let mods = modifiers_named(words.drop_last());
            if mods.is_empty_spec() {
                None
            } else {
                Some(KeyComboView { modifiers: mods, key })
            }
        },
        None => None,
    }
}

/// Reads a shortcut from its text.
pub fn parse_shortcut(shortcut_str: &str) -> (r: Option<KeyCombo>)
    ensures
        match r {
            Some(c) => parsed_shortcut(shortcut_str@) == Some(c@),
            None => parsed_shortcut(shortcut_str@) is None,
        },
{
    let sep = " + ";
    proof {
        reveal_strlit(" + ");
    }
    let words = split_text(shortcut_str, sep);
    proof {
        lemma_split_from_nonempty(shortcut_str@, sep@, 0, 0);
    }
    let ghost ws = texts(words@);
    let n = words.len();
    let key = match key_code(words[n - 1].as_str()) {
        Some(k) => k,
        None => {
            return None;
        },
    };
    let mut mods = ModifierSet::empty();
    let mut i: usize = 0;
    while i < n - 1
        invariant
            n == words@.len(),
            ws == texts(words@),
            n >= 1,
            i <= n - 1,
            mods == modifiers_named(ws.subrange(0, i as int)),
        decreases n - 1 - i,
    {
        let lowered = lowercase(words[i].as_str());
        let named = modifier_for_word(lowered.as_str());
        assert(ws.subrange(0, i + 1).drop_last() =~= ws.subrange(0, i as int));
        match named {
            Some(k) => {
                mods = mods.with(k);
            },
            None => {},
        }
        i = i + 1;
    }
    assert(ws.subrange(0, n - 1) =~= ws.drop_last());
    if mods.is_empty() {
        None
    } else {
        Some(KeyCombo { modifiers: mods, key })
    }
}

/// The words written before the key for the modifiers in `m`, each followed
/// by the separator.
pub open spec fn modifier_prefix(m: ModifierSet) -> Seq<char> {
    (if m.control { "Control + "@ } else { Seq::empty() }) + (if m.super_key {
        "SUPER + "@
    } else {
        Seq::empty()
    }) + (if m.meta { "META + "@ } else { Seq::empty() }) + (if m.alt {
        "Alt + "@
    } else {
        Seq::empty()
    }) + (if m.shift { "Shift + "@ } else { Seq::empty() })
}

/// The text of a shortcut: its modifiers, then its key.
pub open spec fn shortcut_text(m: ModifierSet, key: Seq<char>) -> Seq<char> {
    modifier_prefix(m) + key
}

/// Writes a shortcut as text, as it is shown for a shortcut with no action.
pub fn shortcut_to_string(modifiers: ModifierSet, key: &str) -> (r: String)
    ensures
        r@ == shortcut_text(modifiers, key@),
{
    let mut s = String::new();
    let ghost e: Seq<char> = Seq::empty();
    if modifiers.control {
        s.append("Control + ");
    }
    let ghost p1 = if modifiers.control { "Control + "@ } else { e };
    assert(s@ =~= p1);
    if modifiers.super_key {
        s.append("SUPER + ");
    }
    let ghost p2 = p1 + if modifiers.super_key { "SUPER + "@ } else { e };
    assert(s@ =~= p2);
    if modifiers.meta {
        s.append("META + ");
    }
    let ghost p3 = p2 + if modifiers.meta { "META + "@ } else { e };
    assert(s@ =~= p3);
    if modifiers.alt {
        s.append("Alt + ");
    }
    let ghost p4 = p3 + if modifiers.alt { "Alt + "@ } else { e };
    assert(s@ =~= p4);
    if modifiers.shift {
        s.append("Shift + ");
    }
    let ghost p5 = p4 + if modifiers.shift { "Shift + "@ } else { e };
    assert(s@ =~= p5);
    s.append(key);
    s
}

/// The words naming the modifiers in `m`, in the order they are written.
pub open spec fn modifier_words(m: ModifierSet) -> Seq<Seq<char>> {
    (if m.control { seq!["Control"@] } else { Seq::empty() }) + (if m.super_key {
        seq!["SUPER"@]
    } else {
        Seq::empty()
    }) + (if m.meta { seq!["META"@] } else { Seq::empty() }) + (if m.alt {
        seq!["Alt"@]
    } else {
        Seq::empty()
    }) + (if m.shift { seq!["Shift"@] } else { Seq::empty() })
}

proof fn lemma_word_block(present: bool, word: Seq<char>, block: Seq<char>, t: Seq<char>)
    requires
        !word.contains(' '),
        block == word + separator(),
    ensures
        split_seq((if present { block } else { Seq::empty() }) + t, separator()) == (if present {
            seq![word]
        } else {
            Seq::empty()
        }) + split_seq(t, separator()),
{
    reveal_strlit(" + ");
    if present {
        lemma_split_first_word(word, separator(), t);
    } else {
        assert(Seq::<char>::empty() + t =~= t);
        assert(Seq::<Seq<char>>::empty() + split_seq(t, separator()) =~= split_seq(
            t,
            separator(),
        ));
    }
}

proof fn lemma_no_space(w: Seq<char>)
    requires
        forall|i: int| 0 <= i < w.len() ==> w[i] != ' ',
    ensures
        !w.contains(' '),
{
}

/// Written as text, a shortcut reads back as its modifier words, in order,
/// followed by its key, when the key holds no space.
pub proof fn lemma_shortcut_text_words(m: ModifierSet, key: Seq<char>)
    requires
        !key.contains(' '),
    ensures
        split_seq(shortcut_text(m, key), separator()) == modifier_words(m).push(key),
{
    reveal_strlit(" + ");
    reveal_strlit("Control + ");
    reveal_strlit("SUPER + ");
    reveal_strlit("META + ");
    reveal_strlit("Alt + ");
    reveal_strlit("Shift + ");
    reveal_strlit("Control");
    reveal_strlit("SUPER");
    reveal_strlit("META");
    reveal_strlit("Alt");
    reveal_strlit("Shift");
    let e = Seq::<char>::empty();
    let c = if m.control { "Control + "@ } else { e };
    let su = if m.super_key { "SUPER + "@ } else { e };
    let me = if m.meta { "META + "@ } else { e };
    let al = if m.alt { "Alt + "@ } else { e };
    let sh = if m.shift { "Shift + "@ } else { e };
    let t4 = sh + key;
    let t3 = al + t4;
    let t2 = me + t3;
    let t1 = su + t2;
    let t0 = c + t1;
    assert(shortcut_text(m, key) =~= t0);
    lemma_no_space("Control"@);
    lemma_no_space("SUPER"@);
    lemma_no_space("META"@);
    lemma_no_space("Alt"@);
    lemma_no_space("Shift"@);
    assert("Control + "@ =~= "Control"@ + separator());
    assert("SUPER + "@ =~= "SUPER"@ + separator());
    assert("META + "@ =~= "META"@ + separator());
    assert("Alt + "@ =~= "Alt"@ + separator());
    assert("Shift + "@ =~= "Shift"@ + separator());
    lemma_split_single(key, separator());
    lemma_word_block(m.shift, "Shift"@, "Shift + "@, key);
    lemma_word_block(m.alt, "Alt"@, "Alt + "@, t4);
    lemma_word_block(m.meta, "META"@, "META + "@, t3);
    lemma_word_block(m.super_key, "SUPER"@, "SUPER + "@, t2);
    lemma_word_block(m.control, "Control"@, "Control + "@, t1);
    let ws = modifier_words(m);
    assert(split_seq(t0, separator()) =~= ws.push(key));
}

} // verus!
