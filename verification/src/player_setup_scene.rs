//! Player setup scene: name entry from the physical and the on-screen
//! keyboard, the layout of the on-screen keyboard, the start button, and the
//! cleaning of the chosen name.
use vstd::prelude::*;
use vstd::string::*;
use vstd::utf8::*;
use crate::character_components::{new_player, NewPlayer, STARTING_BALANCE, STARTING_HEALTH, STARTING_LOCATION};
use crate::ui::{button_look, spec_button_look, ButtonInteraction, ButtonLook};
use crate::AppState;
use crate::text::{
    ascii_lower, ascii_upper, byte_len, byte_len_below, lemma_byte_len_ascii, lemma_byte_len_push,
    pop_char, push_char, to_ascii_lower, to_ascii_upper,
};

verus! {

/// Longest name, in bytes, that the name entry still extends.
pub const USERNAME_LENGTH: usize = 21;

/// The characters a name may hold: ASCII letters, digits and the space
/// (the set `abc..zABC..Z1234567890 `).
pub open spec fn is_acceptable(c: char) -> bool {
    ||| ('a' <= c && c <= 'z')
    ||| ('A' <= c && c <= 'Z')
    ||| ('0' <= c && c <= '9')
    ||| c == ' '
}

/// Whether `c` may stand in a name.
pub fn acceptable_char(c: char) -> (r: bool)
    ensures
        r == is_acceptable(c),
{
    ('a' <= c && c <= 'z') || ('A' <= c && c <= 'Z') || ('0' <= c && c <= '9') || c == ' '
}

/// Every character of `s` may stand in a name.
pub open spec fn all_acceptable(s: Seq<char>) -> bool {
    forall|i: int| 0 <= i < s.len() ==> is_acceptable(#[trigger] s[i])
}

/// `s` holds two spaces in a row.
pub open spec fn has_double_space(s: Seq<char>) -> bool {
    exists|i: int| 0 <= i < s.len() - 1 && #[trigger] s[i] == ' ' && s[i + 1] == ' '
}

/// A name that cleaning keeps as it is: acceptable characters only, one to
/// `USERNAME_LENGTH` of them, no two spaces in a row, and no space at either end.
pub open spec fn is_clean_name(s: Seq<char>) -> bool {
    &&& all_acceptable(s)
    &&& 0 < s.len() <= USERNAME_LENGTH
    &&& !has_double_space(s)
    &&& s[0] != ' '
    &&& s.last() != ' '
}

/// The name chosen for the player from what was typed: the typed text when it
/// is a clean name, otherwise a placeholder that says what was wrong with it.
pub open spec fn cleaned_name(s: Seq<char>) -> Seq<char> {
    if !all_acceptable(s) {
        "Anon de ausu"@
    } else if s.len() == 0 {
        "Anon de umbra"@
    } else if s.len() > USERNAME_LENGTH {
        "Anon de longitudo"@
    } else if has_double_space(s) {
        "Anon de inanis"@
    } else if s[0] == ' ' {
        "Anon de primis"@
    } else if s.last() == ' ' {
        "Anon de novissime"@
    } else {
        s
    }
}

/// Cleans a typed name: the input itself when it is a clean name, otherwise
/// the placeholder for the first rule it breaks.
pub fn clean_name<'a>(user_input: &'a str) -> (r: &'a str)
    ensures
        r@ == cleaned_name(user_input@),
{
    let n = user_input.unicode_len();
    let mut i: usize = 0;
    while i < n
        invariant
            n == user_input@.len(),
            i <= n,
            forall|j: int| 0 <= j < i ==> is_acceptable(#[trigger] user_input@[j]),
        decreases n - i,
    {
        if !acceptable_char(user_input.get_char(i)) {
            return "Anon de ausu";
        }
        i = i + 1;
    }
    assert(all_acceptable(user_input@));
    if user_input.is_empty() {
        return "Anon de umbra";
    }
    proof {
        assert(is_ascii_chars(user_input@));
        lemma_byte_len_ascii(user_input@);
    }
    if !byte_len_below(user_input, USERNAME_LENGTH + 1) {
        return "Anon de longitudo";
    }
    let mut k: usize = 0;
    while k + 1 < n
        invariant
            n == user_input@.len(),
            0 < n <= USERNAME_LENGTH,
            k < n,
            all_acceptable(user_input@),
            forall|j: int|
                0 <= j < k ==> !(#[trigger] user_input@[j] == ' ' && user_input@[j + 1] == ' '),
        decreases n - k,
    {
        if user_input.get_char(k) == ' ' && user_input.get_char(k + 1) == ' ' {
            assert(user_input@[k as int] == ' ' && user_input@[k + 1] == ' ');
            return "Anon de inanis";
        }
        k = k + 1;
    }
    assert(!has_double_space(user_input@));
    if user_input.get_char(0) == ' ' {
        return "Anon de primis";
    }
    if user_input.get_char(n - 1) == ' ' {
        "Anon de novissime"
    } else {
        user_input
    }
}

/// A placeholder name made of acceptable characters, single spaces inside,
/// and at most `USERNAME_LENGTH` characters, is a clean name.
proof fn lemma_placeholder_clean(s: Seq<char>)
    requires
        0 < s.len() <= USERNAME_LENGTH,
        all_acceptable(s),
        forall|i: int| 0 <= i < s.len() - 1 && #[trigger] s[i] == ' ' ==> s[i + 1] != ' ',
        s[0] != ' ',
        s.last() != ' ',
    ensures
        is_clean_name(s),
{
}

/// Whatever was typed, the chosen name is a clean name.
pub proof fn lemma_cleaned_name_is_clean(s: Seq<char>)
    ensures
        is_clean_name(cleaned_name(s)),
{
    reveal_strlit("Anon de ausu");
    reveal_strlit("Anon de umbra");
    reveal_strlit("Anon de longitudo");
    reveal_strlit("Anon de inanis");
    reveal_strlit("Anon de primis");
    reveal_strlit("Anon de novissime");
    lemma_placeholder_clean("Anon de ausu"@);
    lemma_placeholder_clean("Anon de umbra"@);
    lemma_placeholder_clean("Anon de longitudo"@);
    lemma_placeholder_clean("Anon de inanis"@);
    lemma_placeholder_clean("Anon de primis"@);
    lemma_placeholder_clean("Anon de novissime"@);
}

/// A clean name is kept as it was typed.
pub proof fn lemma_clean_name_kept(s: Seq<char>)
    requires
        is_clean_name(s),
    ensures
        cleaned_name(s) == s,
{
}

/// Cleaning a cleaned name changes nothing.
pub proof fn lemma_cleaned_name_idempotent(s: Seq<char>)
    ensures
        cleaned_name(cleaned_name(s)) == cleaned_name(s),
{
    lemma_cleaned_name_is_clean(s);
}

/// The characters of `typed` that may stand in a name, in order.
pub open spec fn acceptable_only(typed: Seq<char>) -> Seq<char>
    decreases typed.len(),
{
    if typed.len() == 0 {
        Seq::empty()
    } else if is_acceptable(typed.last()) {
        acceptable_only(typed.drop_last()).push(typed.last())
    } else {
        acceptable_only(typed.drop_last())
    }
}

/// The characters kept from what was typed are exactly those that may stand
/// in a name (ASCII letters, digits and the space), all of them, in the order
/// they were typed: a text made only of such characters is kept whole, and
/// the number kept is the number of acceptable characters typed.
pub proof fn lemma_acceptable_only_keeps_every_acceptable(typed: Seq<char>)
    ensures
        acceptable_only(typed) == typed.filter(|c: char| is_acceptable(c)),
        all_acceptable(typed) ==> acceptable_only(typed) == typed,
        all_acceptable(acceptable_only(typed)),
    decreases typed.len(),
{
    reveal(Seq::filter);
    if typed.len() > 0 {
        lemma_acceptable_only_keeps_every_acceptable(typed.drop_last());
        assert(all_acceptable(typed) ==> all_acceptable(typed.drop_last()));
        if all_acceptable(typed) {
            assert(is_acceptable(typed[typed.len() - 1]));
            assert(typed.drop_last().push(typed.last()) =~= typed);
        }
        let kept = acceptable_only(typed.drop_last());
        if is_acceptable(typed.last()) {
            assert forall|i: int| 0 <= i < kept.push(typed.last()).len() implies is_acceptable(
                #[trigger] kept.push(typed.last())[i],
            ) by {
                if i < kept.len() {
                    assert(kept.push(typed.last())[i] == kept[i]);
                }
            }
        }
    } else {
        assert(typed.filter(|c: char| is_acceptable(c)) =~= Seq::<char>::empty());
    }
}

/// The name after the characters `typed` on the physical keyboard arrived in
/// one frame: while the name is shorter than `USERNAME_LENGTH` bytes, every
/// acceptable character is appended and the others are dropped; a name that
/// long already stays as it is. The length is looked at once per frame.
pub open spec fn typed_name(name: Seq<char>, typed: Seq<char>) -> Seq<char> {
    if byte_len(name) < USERNAME_LENGTH {
        name + acceptable_only(typed)
    } else {
        name
    }
}

/// What the name entry shows after one frame of typing.
pub struct NameInput {
    /// The name as it now reads.
    pub name: String,
    /// Whether the start button is shown: only for a name that is not empty.
    pub start_visible: bool,
}

/// Frames spent in the name entry.
pub struct Counter(pub i32);

/// One frame of the name entry: counts the frame, appends the acceptable
/// characters that were typed while the name is short enough, and shows the
/// start button for a name that is not empty.
pub fn username_input(counter: &mut Counter, name: String, typed: &Vec<char>) -> (r: NameInput)
    requires
        old(counter).0 < i32::MAX,
    ensures
        final(counter).0 == old(counter).0 + 1,
        r.name@ == typed_name(name@, typed@),
        byte_len(name@) < USERNAME_LENGTH ==> r.name@ == name@ + typed@.filter(
            |c: char| is_acceptable(c),
        ),
        byte_len(name@) >= USERNAME_LENGTH ==> r.name@ == name@,
        r.start_visible == (r.name@.len() != 0),
{
    counter.0 = counter.0 + 1;
    let mut name = name;
    let ghost start = name@;
    if byte_len_below(name.as_str(), USERNAME_LENGTH) {
        let mut i: usize = 0;
        while i < typed.len()
            invariant
                i <= typed.len(),
                name@ == start + acceptable_only(typed@.take(i as int)),
            decreases typed.len() - i,
        {
            let c = typed[i];
            assert(typed@.take(i + 1).drop_last() =~= typed@.take(i as int));
            if acceptable_char(c) {
                push_char(&mut name, c);
                assert(start + acceptable_only(typed@.take(i as int)).push(c) =~= (start
                    + acceptable_only(typed@.take(i as int))).push(c));
            }
            i = i + 1;
        }
        assert(typed@.take(typed.len() as int) =~= typed@);
    }
    proof {
        lemma_acceptable_only_keeps_every_acceptable(typed@);
    }
    let visible = !name.as_str().is_empty();
    NameInput { name, start_visible: visible }
}

/// Capitalization switch of the on-screen keyboard: `true` types capitals.
#[derive(Clone, Copy, Debug)]
pub struct CapitalizeToggle(pub bool);

/// A key of the on-screen keyboard, labelled with its character.
#[derive(Clone, Copy, Debug)]
pub struct KeyBoardButton(pub char);

/// Key that deletes the last character.
pub const BACKSPACE_KEY: char = '<';

/// Key that switches capitals on and off.
pub const SHIFT_KEY: char = '^';

/// The name after `key` is pressed on the on-screen keyboard: `<` deletes the
/// last character, `^` leaves the name alone, and any other key appends its
/// character (upper-cased when capitals are on) if it is acceptable and the
/// name is shorter than `USERNAME_LENGTH` bytes.
pub open spec fn vkey_name(name: Seq<char>, caps: bool, key: char) -> Seq<char> {
    if key == '<' {
        if name.len() == 0 {
            name
        } else {
            name.drop_last()
        }
    } else if key == '^' {
        name
    } else if byte_len(name) < USERNAME_LENGTH && is_acceptable(key) {
        name.push(if caps { ascii_upper(key) } else { key })
    } else {
        name
    }
}

/// The capitalization switch after `key` is pressed: `^` flips it.
pub open spec fn vkey_caps(caps: bool, key: char) -> bool {
    if key == '^' {
        !caps
    } else {
        caps
    }
}

/// Applies one click of an on-screen key to the name and the capitalization switch.
pub fn press_vkey(name: &mut String, toggle: &mut CapitalizeToggle, key: &KeyBoardButton)
    ensures
        final(name)@ == vkey_name(old(name)@, old(toggle).0, key.0),
        final(toggle).0 == vkey_caps(old(toggle).0, key.0),
{
    let k = key.0;
    if k == BACKSPACE_KEY {
        let _ = pop_char(name);
    } else if k == SHIFT_KEY {
        toggle.0 = !toggle.0;
    } else if byte_len_below(name.as_str(), USERNAME_LENGTH) && acceptable_char(k) {
        if toggle.0 {
            push_char(name, to_ascii_upper(k));
        } else {
            push_char(name, k);
        }
    }
}

/// The name and switch after the clicks `keys`, applied in order.
pub open spec fn vkeys_state(name: Seq<char>, caps: bool, keys: Seq<char>) -> (Seq<char>, bool)
    decreases keys.len(),
{
    if keys.len() == 0 {
        (name, caps)
    } else {
        let (n, c) = vkeys_state(name, caps, keys.drop_last());
        (vkey_name(n, c, keys.last()), vkey_caps(c, keys.last()))
    }
}

/// How the pointer stands to an on-screen key whose interaction changed.
pub struct KeyInteraction {
    pub interaction: ButtonInteraction,
    pub key: KeyBoardButton,
}

/// The keys that were clicked among `changed`, in order.
pub open spec fn clicked_keys(changed: Seq<KeyInteraction>) -> Seq<char>
    decreases changed.len(),
{
    if changed.len() == 0 {
        Seq::empty()
    } else if changed.last().interaction == ButtonInteraction::Clicked {
        clicked_keys(changed.drop_last()).push(changed.last().key.0)
    } else {
        clicked_keys(changed.drop_last())
    }
}

/// Whether pressing `key` on a name reading `name` consults the
/// capitalization switch: `^` flips it, and a character that is typed is
/// upper-cased by it.
pub open spec fn vkey_needs_toggle(name: Seq<char>, key: char) -> bool {
    key == '^' || (key != '<' && byte_len(name) < USERNAME_LENGTH && is_acceptable(key))
}

/// Whether, without a capitalization switch, one of the clicks `keys` needs it.
pub open spec fn vkeys_miss_toggle(name: Seq<char>, keys: Seq<char>) -> bool
    decreases keys.len(),
{
    keys.len() > 0 && (vkeys_miss_toggle(name, keys.drop_last()) || vkey_needs_toggle(
        vkeys_state(name, false, keys.drop_last()).0,
        keys.last(),
    ))
}

/// What one frame of the on-screen keyboard comes to.
pub enum VkeyboardFrame {
    /// There is no name text to edit: nothing changes.
    NoName,
    /// A click needed the capitalization switch, and there is none.
    MissingToggle,
    /// The name after the clicks, and the look of each key whose interaction changed.
    Updated { name: String, looks: Vec<ButtonLook> },
}

/// One frame of the on-screen keyboard: every key whose interaction changed
/// takes the look of that interaction, and the clicked keys are applied to
/// the name, in order. Without a name text nothing changes; without a
/// capitalization switch, a click that needs one stops the frame.
pub fn vkeyboard_system(
    name: Option<String>,
    toggle: &mut Option<CapitalizeToggle>,
    changed: &Vec<KeyInteraction>,
) -> (r: VkeyboardFrame)
    ensures
        name is None ==> r is NoName && *final(toggle) == *old(toggle),
        name matches Some(n) ==> match *old(toggle) {
            Some(t) => {
                let (new_name, caps) = vkeys_state(n@, t.0, clicked_keys(changed@));
                &&& *final(toggle) == Some(CapitalizeToggle(caps))
                &&& r matches VkeyboardFrame::Updated { name: m, looks }
                &&& m@ == new_name
                &&& looks@.len() == changed@.len()
                &&& forall|j: int|
                    0 <= j < changed@.len() ==> looks@[j] == spec_button_look(
                        #[trigger] changed@[j].interaction,
                    )
            },
            None => {
                &&& *final(toggle) is None
                &&& vkeys_miss_toggle(n@, clicked_keys(changed@)) ==> r is MissingToggle
                &&& !vkeys_miss_toggle(n@, clicked_keys(changed@)) ==> {
                    &&& r matches VkeyboardFrame::Updated { name: m, looks }
                    &&& m@ == vkeys_state(n@, false, clicked_keys(changed@)).0
                    &&& looks@.len() == changed@.len()
                    &&& forall|j: int|
                        0 <= j < changed@.len() ==> looks@[j] == spec_button_look(
                            #[trigger] changed@[j].interaction,
                        )
                }
            },
        },
{
    let mut cur = match name {
        Some(n) => n,
        None => {
            return VkeyboardFrame::NoName;
        },
    };
    let ghost start = cur@;
    let ghost had_toggle = toggle.is_some();
    let ghost caps0 = match *toggle {
        Some(t) => t.0,
        None => false,
    };
    let mut looks: Vec<ButtonLook> = Vec::new();
    let mut i: usize = 0;
    while i < changed.len()
        invariant
            i <= changed@.len(),
            name matches Some(n) && n@ == start,
            had_toggle == old(toggle).is_some(),
            caps0 == (match *old(toggle) {
                Some(t) => t.0,
                None => false,
            }),
            !had_toggle ==> *toggle is None,
            had_toggle == toggle.is_some(),
            looks@.len() == i,
            forall|j: int| 0 <= j < i ==> looks@[j] == spec_button_look(#[trigger] changed@[j].interaction),
            had_toggle ==> (*toggle matches Some(t) && (cur@, t.0) == vkeys_state(
                start,
                caps0,
                clicked_keys(changed@.take(i as int)),
            )),
            !had_toggle ==> !vkeys_miss_toggle(start, clicked_keys(changed@.take(i as int))) && (
            cur@, false) == vkeys_state(start, false, clicked_keys(changed@.take(i as int))),
        decreases changed.len() - i,
    {
        let ghost before = clicked_keys(changed@.take(i as int));
        assert(changed@.take(i + 1).drop_last() =~= changed@.take(i as int));
        let c = &changed[i];
        looks.push(button_look(c.interaction));
        if c.interaction == ButtonInteraction::Clicked {
            assert(clicked_keys(changed@.take(i + 1)) =~= before.push(c.key.0));
            assert(before.push(c.key.0).drop_last() =~= before);
            match toggle {
                Some(t) => {
                    press_vkey(&mut cur, t, &c.key);
                },
                None => {
                    if needs_toggle(cur.as_str(), c.key.0) {
                        proof {
                            let more = lemma_clicked_prefix(changed@, i + 1);
                            assert(vkeys_miss_toggle(start, clicked_keys(changed@.take(i + 1))));
                            lemma_miss_extends(start, clicked_keys(changed@.take(i + 1)), more);
                        }
                        return VkeyboardFrame::MissingToggle;
                    }
                    let mut off = CapitalizeToggle(false);
                    press_vkey(&mut cur, &mut off, &c.key);
                },
            }
        } else {
            assert(clicked_keys(changed@.take(i + 1)) =~= before);
        }
        i = i + 1;
    }
    assert(changed@.take(changed.len() as int) =~= changed@);
    VkeyboardFrame::Updated { name: cur, looks }
}

/// The clicks among the first `k` changes come first among all the clicks.
proof fn lemma_clicked_prefix(changed: Seq<KeyInteraction>, k: int) -> (more: Seq<char>)
    requires
        0 <= k <= changed.len(),
    ensures
        clicked_keys(changed) == clicked_keys(changed.take(k)) + more,
    decreases changed.len() - k,
{
    if k == changed.len() {
        assert(changed.take(k) =~= changed);
        assert(clicked_keys(changed) =~= clicked_keys(changed.take(k)) + Seq::<char>::empty());
        Seq::empty()
    } else {
        let rest = lemma_clicked_prefix(changed, k + 1);
        assert(changed.take(k + 1).drop_last() =~= changed.take(k));
        if changed[k].interaction == ButtonInteraction::Clicked {
            let more = seq![changed[k].key.0] + rest;
            assert(clicked_keys(changed.take(k) ) + more =~= clicked_keys(changed.take(k + 1)) + rest);
            more
        } else {
            rest
        }
    }
}

/// Once a click has missed the capitalization switch, later clicks do not undo it.
proof fn lemma_miss_extends(name: Seq<char>, keys: Seq<char>, more: Seq<char>)
    requires
        vkeys_miss_toggle(name, keys),
    ensures
        vkeys_miss_toggle(name, keys + more),
    decreases more.len(),
{
    if more.len() == 0 {
        assert(keys + more =~= keys);
    } else {
        lemma_miss_extends(name, keys, more.drop_last());
        assert((keys + more).drop_last() =~= keys + more.drop_last());
    }
}

/// Whether pressing `key` on `name` consults the capitalization switch.
pub fn needs_toggle(name: &str, key: char) -> (r: bool)
    ensures
        r == vkey_needs_toggle(name@, key),
{
    key == SHIFT_KEY || (key != BACKSPACE_KEY && byte_len_below(name, USERNAME_LENGTH)
        && acceptable_char(key))
}

/// Deleting right after typing an acceptable character gives the name back,
/// when the name had room for it.
pub proof fn lemma_backspace_undoes_key(name: Seq<char>, caps: bool, key: char)
    requires
        is_acceptable(key),
        byte_len(name) < USERNAME_LENGTH,
    ensures
        vkey_name(vkey_name(name, caps, key), caps, '<') == name,
{
    let typed = vkey_name(name, caps, key);
    assert(typed.drop_last() =~= name);
}

/// Pressing `^` twice leaves the capitalization as it was.
pub proof fn lemma_shift_twice(caps: bool)
    ensures
        vkey_caps(vkey_caps(caps, '^'), '^') == caps,
{
}

/// The on-screen keyboard never makes a name longer than `USERNAME_LENGTH`
/// bytes: a name within that length stays within it after any key.
pub proof fn lemma_vkey_keeps_length(name: Seq<char>, caps: bool, key: char)
    requires
        byte_len(name) <= USERNAME_LENGTH,
    ensures
        byte_len(vkey_name(name, caps, key)) <= USERNAME_LENGTH,
{
    if key == '<' {
        if name.len() > 0 {
            lemma_byte_len_push(name.drop_last(), name.last());
            assert(name.drop_last().push(name.last()) =~= name);
        }
    } else if key != '^' && byte_len(name) < USERNAME_LENGTH && is_acceptable(key) {
        let c = if caps { ascii_upper(key) } else { key };
        lemma_byte_len_push(name, c);
    }
}

/// Whatever keys are clicked in one frame, the on-screen keyboard leaves the
/// name as a prefix of the old name followed by letters, digits and spaces,
/// and no longer in bytes than the old name or `USERNAME_LENGTH`, whichever
/// is larger; so a name within `USERNAME_LENGTH` stays within it.
pub proof fn lemma_vkeys_shape(name: Seq<char>, caps: bool, keys: Seq<char>)
    ensures
        exists|k: int, a: Seq<char>|
            0 <= k <= name.len() && all_acceptable(a) && #[trigger] (name.take(k) + a)
                == vkeys_state(name, caps, keys).0,
        byte_len(vkeys_state(name, caps, keys).0) <= if byte_len(name) > USERNAME_LENGTH {
            byte_len(name)
        } else {
            USERNAME_LENGTH as nat
        },
    decreases keys.len(),
{
    if keys.len() == 0 {
        assert(name.take(name.len() as int) + Seq::<char>::empty() =~= name);
    } else {
        lemma_vkeys_shape(name, caps, keys.drop_last());
        let (n, c) = vkeys_state(name, caps, keys.drop_last());
        let (k, a) = choose|k: int, a: Seq<char>|
            0 <= k <= name.len() && all_acceptable(a) && #[trigger] (name.take(k) + a) == n;
        let key = keys.last();
        if key == '<' {
            if n.len() > 0 {
                lemma_byte_len_push(n.drop_last(), n.last());
                assert(n.drop_last().push(n.last()) =~= n);
                if a.len() > 0 {
                    assert(name.take(k) + a.drop_last() =~= n.drop_last());
                    assert(all_acceptable(a.drop_last()));
                } else {
                    assert(name.take(k - 1) + Seq::<char>::empty() =~= n.drop_last());
                }
            }
        } else if key != '^' && byte_len(n) < USERNAME_LENGTH && is_acceptable(key) {
            let ch = if c { ascii_upper(key) } else { key };
            assert(is_acceptable(ch));
            lemma_byte_len_push(n, ch);
            assert(name.take(k) + a.push(ch) =~= n.push(ch));
            assert(all_acceptable(a.push(ch)));
        }
    }
}

/// Typed characters keep a name within `USERNAME_LENGTH` bytes as long as
/// what is appended in the frame fits: the limit is looked at only once per
/// frame, so a name one byte short of it still takes every acceptable
/// character that arrives in that frame.
pub proof fn lemma_typed_keeps_length(name: Seq<char>, typed: Seq<char>)
    requires
        byte_len(name) <= USERNAME_LENGTH,
        byte_len(name) < USERNAME_LENGTH ==> byte_len(name) + acceptable_only(typed).len()
            <= USERNAME_LENGTH,
    ensures
        byte_len(typed_name(name, typed)) <= USERNAME_LENGTH,
{
    if byte_len(name) < USERNAME_LENGTH {
        lemma_byte_len_append_acceptable(name, typed);
    }
}

/// Appending acceptable characters adds one byte each.
proof fn lemma_byte_len_append_acceptable(name: Seq<char>, typed: Seq<char>)
    ensures
        byte_len(name + acceptable_only(typed)) == byte_len(name) + acceptable_only(typed).len(),
    decreases typed.len(),
{
    if typed.len() == 0 {
        assert(name + acceptable_only(typed) =~= name);
    } else {
        lemma_byte_len_append_acceptable(name, typed.drop_last());
        if is_acceptable(typed.last()) {
            let prev = name + acceptable_only(typed.drop_last());
            assert(name + acceptable_only(typed) =~= prev.push(typed.last()));
            lemma_byte_len_push(prev, typed.last());
        }
    }
}

/// The label shown on a letter key: its capital when capitals are on, its
/// small letter otherwise.
pub open spec fn key_label_char(key: char, caps: bool) -> char {
    if caps {
        ascii_upper(key)
    } else {
        ascii_lower(key)
    }
}

/// Label of a capitalizable key of the on-screen keyboard.
pub fn case_vkeyboard_label(key: &KeyBoardButton, toggle: &CapitalizeToggle) -> (r: char)
    ensures
        r == key_label_char(key.0, toggle.0),
{
    if toggle.0 {
        to_ascii_upper(key.0)
    } else {
        to_ascii_lower(key.0)
    }
}

/// What a key of the on-screen keyboard does.
#[derive(Clone, Copy, PartialEq, Eq, Structural, Debug)]
pub enum KeyType {
    /// A letter, shown in capitals when capitals are on.
    Letter,
    /// Delete (`<`), capitals (`^`) or the space bar.
    Function,
    /// A digit.
    Number,
}

/// The kind of the key labelled `c`: letters `a`..`z`, digits, or one of the
/// function keys `<`, `^` and space; no kind for any other character.
pub open spec fn spec_key_type(c: char) -> Option<KeyType> {
    if 'a' <= c && c <= 'z' {
        Some(KeyType::Letter)
    } else if '0' <= c && c <= '9' {
        Some(KeyType::Number)
    } else if c == '<' || c == '^' || c == ' ' {
        Some(KeyType::Function)
    } else {
        None
    }
}

/// The kind of the key labelled `c`.
pub fn key_type(c: char) -> (r: Option<KeyType>)
    ensures
        r == spec_key_type(c),
{
    if 'a' <= c && c <= 'z' {
        Some(KeyType::Letter)
    } else if '0' <= c && c <= '9' {
        Some(KeyType::Number)
    } else if c == '<' || c == '^' || c == ' ' {
        Some(KeyType::Function)
    } else {
        None
    }
}

/// The rows of the on-screen keyboard, top to bottom.
pub open spec fn keyboard_rows() -> Seq<Seq<char>> {
    seq![
        seq!['1', '2', '3', '4', '5', '6', '7', '8', '9', '0', '<'],
        seq!['q', 'w', 'e', 'r', 't', 'y', 'u', 'i', 'o', 'p'],
        seq!['^', 'a', 's', 'd', 'f', 'g', 'h', 'j', 'k', 'l'],
        seq!['z', 'x', 'c', 'v', 'b', 'n', 'm', ' '],
    ]
}

/// How far left each row starts, relative to where the row above ended.
pub open spec fn row_shift(row: int) -> int {
    if row == 0 {
        0
    } else if row == 1 {
        520
    } else if row == 2 {
        520
    } else {
        430
    }
}

/// Horizontal offset, in pixels, from which the keys of row `row` are placed:
/// the end of the row above, moved left by that row's shift.
pub open spec fn row_start(row: int) -> int
    decreases row,
{
    if row <= 0 {
        320 - row_shift(0)
    } else {
        row_start(row - 1) + 50 * keyboard_rows()[row - 1].len() - row_shift(row)
    }
}

/// Where the rows start: 320, 350, 330 and 400 pixels from the left.
pub proof fn lemma_row_starts()
    ensures
        row_start(0) == 320,
        row_start(1) == 350,
        row_start(2) == 330,
        row_start(3) == 400,
{
    assert(keyboard_rows()[0].len() == 11);
    assert(keyboard_rows()[1].len() == 10);
    assert(keyboard_rows()[2].len() == 10);
    assert(row_start(0) == 320);
    assert(row_start(1) == 350);
    assert(row_start(2) == 330);
    assert(row_start(3) == 400);
}

/// A key of the on-screen keyboard with its place on screen, in pixels from
/// the left and from the top.
#[derive(Clone, Copy, PartialEq, Eq, Structural, Debug)]
pub struct VirtualKey {
    /// The character the key types.
    pub key: char,
    /// What the key does, if it has a kind.
    pub kind: Option<KeyType>,
    /// Distance from the left edge.
    pub left: i32,
    /// Distance from the top edge.
    pub top: i32,
}

/// The key in row `row`, column `col`: keys are 50 pixels apart, and rows are
/// 50 pixels apart starting 350 pixels from the top.
pub open spec fn spec_virtual_key(row: int, col: int) -> VirtualKey {
    let c = keyboard_rows()[row][col];
    VirtualKey {
        key: c,
        kind: spec_key_type(c),
        left: (row_start(row) + 50 * (col + 1)) as i32,
        top: (300 + 50 * (row + 1)) as i32,
    }
}

/// Whether a key's label follows the capitalization switch: the letter keys.
pub open spec fn is_capitalizable(k: VirtualKey) -> bool {
    k.kind == Some(KeyType::Letter)
}

/// The characters of the on-screen keyboard, row by row.
fn keyboard_chars() -> (rows: Vec<Vec<char>>)
    ensures
        rows@.len() == keyboard_rows().len(),
        forall|r: int| 0 <= r < rows@.len() ==> #[trigger] rows@[r]@ == keyboard_rows()[r],
{
    let rows = vec![
        vec!['1', '2', '3', '4', '5', '6', '7', '8', '9', '0', '<'],
        vec!['q', 'w', 'e', 'r', 't', 'y', 'u', 'i', 'o', 'p'],
        vec!['^', 'a', 's', 'd', 'f', 'g', 'h', 'j', 'k', 'l'],
        vec!['z', 'x', 'c', 'v', 'b', 'n', 'm', ' '],
    ];
    assert(rows@[0]@ =~= keyboard_rows()[0]);
    assert(rows@[1]@ =~= keyboard_rows()[1]);
    assert(rows@[2]@ =~= keyboard_rows()[2]);
    assert(rows@[3]@ =~= keyboard_rows()[3]);
    rows
}

/// Shift of row `row` to the left, as laid out on screen.
fn row_shift_of(row: usize) -> (s: i32)
    ensures
        s == row_shift(row as int),
{
    if row == 0 {
        0
    } else if row == 1 {
        520
    } else if row == 2 {
        520
    } else {
        430
    }
}

/// Lays out the on-screen keyboard: every key, row by row, with its kind and
/// its place on screen.
pub fn setup_vkeyboard() -> (layout: Vec<Vec<VirtualKey>>)
    ensures
        layout@.len() == keyboard_rows().len(),
        forall|r: int|
            0 <= r < layout@.len() ==> (#[trigger] layout@[r])@.len() == keyboard_rows()[r].len(),
        forall|r: int, c: int|
            0 <= r < layout@.len() && 0 <= c < layout@[r]@.len() ==> #[trigger] layout@[r]@[c]
                == spec_virtual_key(r, c),
{
    let rows = keyboard_chars();
    proof {
        lemma_row_starts();
    }
    let mut layout: Vec<Vec<VirtualKey>> = Vec::new();
    let mut y_offset: i32 = 300;
    let mut x_offset: i32 = 320;
    let mut r: usize = 0;
    while r < rows.len()
        invariant
            rows@.len() == keyboard_rows().len(),
            forall|q: int| 0 <= q < rows@.len() ==> #[trigger] rows@[q]@ == keyboard_rows()[q],
            r <= rows@.len(),
            layout@.len() == r,
            row_start(0) == 320 && row_start(1) == 350 && row_start(2) == 330 && row_start(3) == 400,
            y_offset == 300 + 50 * r,
            x_offset == (if r == 0 { 320 } else { row_start(r - 1) + 50 * keyboard_rows()[r
                - 1].len() }),
            forall|q: int|
                0 <= q < r ==> (#[trigger] layout@[q])@.len() == keyboard_rows()[q].len(),
            forall|q: int, c: int|
                0 <= q < r && 0 <= c < layout@[q]@.len() ==> #[trigger] layout@[q]@[c]
                    == spec_virtual_key(q, c),
        decreases rows.len() - r,
    {
        x_offset = x_offset - row_shift_of(r);
        y_offset = y_offset + 50;
        assert(x_offset == row_start(r as int));
        let row = &rows[r];
        let mut keys: Vec<VirtualKey> = Vec::new();
        let mut c: usize = 0;
        while c < row.len()
            invariant
                row@ == keyboard_rows()[r as int],
                r < keyboard_rows().len(),
                c <= row@.len(),
                row@.len() <= 11,
                0 <= row_start(r as int) <= 400,
                keys@.len() == c,
                y_offset == 300 + 50 * (r + 1),
                x_offset == row_start(r as int) + 50 * c,
                forall|k: int| 0 <= k < c ==> #[trigger] keys@[k] == spec_virtual_key(r as int, k),
            decreases row.len() - c,
        {
            x_offset = x_offset + 50;
            let ch = row[c];
            keys.push(VirtualKey { key: ch, kind: key_type(ch), left: x_offset, top: y_offset });
            c = c + 1;
        }
        layout.push(keys);
        r = r + 1;
    }
    layout
}

/// What the start button does in one frame.
pub struct StartButtonResponse {
    /// The text on the button.
    pub label: String,
    /// How the button looks.
    pub look: ButtonLook,
    /// The player to bring into the game, once the button is clicked.
    pub new_player: Option<NewPlayer>,
    /// The scene to go to, once the button is clicked.
    pub next_state: Option<AppState>,
}

/// The start button: a click brings in a player named after the cleaned name
/// and starts the game; hovering asks "Ready?".
pub fn start_button_system(interaction: ButtonInteraction, username: &str) -> (r: StartButtonResponse)
    ensures
        r.look == spec_button_look(interaction),
        interaction == ButtonInteraction::Hovered ==> r.label@ == "Ready?"@,
        interaction != ButtonInteraction::Hovered ==> r.label@ == "Start"@,
        interaction == ButtonInteraction::Clicked ==> {
            &&& r.next_state == Some(AppState::InGame)
            &&& r.new_player matches Some(p)
            &&& p.name.0@ == cleaned_name(username@)
            &&& p.balance.0 == STARTING_BALANCE
            &&& p.health.0 == STARTING_HEALTH
            &&& p.location.0 == STARTING_LOCATION
        },
        interaction != ButtonInteraction::Clicked ==> r.next_state is None && r.new_player is None,
{
    let look = button_look(interaction);
    match interaction {
        ButtonInteraction::Clicked => {
            let clean = clean_name(username);
            let player = new_player(String::from_str(clean));
            StartButtonResponse {
                label: String::from_str("Start"),
                look,
                new_player: Some(player),
                next_state: Some(AppState::InGame),
            }
        },
        ButtonInteraction::Hovered => StartButtonResponse {
            label: String::from_str("Ready?"),
            look,
            new_player: None,
            next_state: None,
        },
        ButtonInteraction::Idle => StartButtonResponse {
            label: String::from_str("Start"),
            look,
            new_player: None,
            next_state: None,
        },
    }
}

} // verus!
