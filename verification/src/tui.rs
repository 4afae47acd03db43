//! Input state machine of the interactive provider list.
//!
//! The screen has three modal input states — the provider list, the
//! add-provider form, and the delete confirmation — and `handle_input` is
//! the transition table over them, one case per key event.  The machine
//! mutates the store through the same operations as the non-interactive
//! front end and reports what outward effect the caller owes: persisting
//! the store, mirroring a provider into the environment, clearing it, or
//! quitting.  Drawing the screen and reading key events stay with the
//! caller.

use vstd::prelude::*;
use crate::config::{Config, Provider, StoreOp};
use crate::strutil::{pop_char, push_char};

verus! {

/// The key events the machine distinguishes; every other event is `Other`.
#[derive(Clone, Copy)]
pub enum Key {
    Char(char),
    Up,
    Down,
    Enter,
    Esc,
    Tab,
    BackTab,
    Backspace,
    Other,
}

/// The add-provider form: which field has focus, and the four field texts.
pub struct AddProviderState {
    /// 0 is the name, 1 the URL, 2 the token, 3 the optional model.
    pub current_field: usize,
    pub name: String,
    pub url: String,
    pub token: String,
    pub model: String,
}

/// The three modal input states.
pub enum InputMode {
    Normal,
    AddProvider(AddProviderState),
    DeleteConfirm,
}

/// What outward effect a transition owes the caller.
pub enum TuiAction {
    /// Nothing beyond the state change.
    Idle,
    /// Leave the screen.
    Quit,
    /// Persist the store and mirror this provider into the environment.
    SaveAndApply { provider: Provider },
    /// Persist the store and clear the recognized variables.
    SaveAndClear,
    /// Persist the store.
    SaveOnly,
}

/// The interactive screen's state.
pub struct TuiApp {
    pub config: Config,
    /// Index into the provider list that the cursor rests on.
    pub selected: Option<usize>,
    pub input_mode: InputMode,
    pub message: Option<String>,
    pub message_is_error: bool,
}

/// Where the cursor moves on a step down, wrapping at the end.
pub open spec fn nav_next(len: nat, sel: Option<usize>) -> Option<usize> {
    if len == 0 {
        sel
    } else {
        match sel {
            Some(i) => if i as int >= len - 1 {
                Some(0usize)
            } else {
                Some((i + 1) as usize)
            },
            None => Some(0usize),
        }
    }
}

/// Where the cursor moves on a step up, wrapping at the start.
pub open spec fn nav_prev(len: nat, sel: Option<usize>) -> Option<usize> {
    if len == 0 {
        sel
    } else {
        match sel {
            Some(i) => if i == 0 {
                Some((len - 1) as usize)
            } else {
                Some((i - 1) as usize)
            },
            None => Some(0usize),
        }
    }
}

impl TuiApp {
    /// The provider record under the cursor, if the cursor is on one.
    pub open spec fn spec_selected(self) -> Option<crate::config::ProviderView> {
        match self.selected {
            Some(i) => if (i as int) < self.config@.providers.len() {
                Some(self.config@.providers[i as int])
            } else {
                None
            },
            None => None,
        }
    }
}

/// Switching to the provider under the cursor: the store selects it, the
/// caller owes a save and the environment mirror, and a confirmation shows.
/// With no cursor nothing happens.
pub open spec fn use_transition(o: TuiApp, n: TuiApp, r: TuiAction) -> bool {
    match o.spec_selected() {
        Some(pv) => {
            &&& n.config@ == (StoreOp::Select { name: pv.name }).apply(o.config@)
            &&& (r matches TuiAction::SaveAndApply { provider } && provider@ == pv)
            &&& n.message.deep_view() == Some("Switched to provider '"@ + pv.name + "'"@)
            &&& n.message_is_error == false
            &&& n.selected == o.selected
            &&& n.input_mode == o.input_mode
        },
        None => n == o && r is Idle,
    }
}

/// Clearing the selection from the screen: unconditional, and the caller
/// owes a save and the removal of the recognized variables.
pub open spec fn clear_transition(o: TuiApp, n: TuiApp, r: TuiAction) -> bool {
    &&& n.config@ == StoreOp::Deselect.apply(o.config@)
    &&& r is SaveAndClear
    &&& n.message.deep_view() == Some("Cleared current provider"@)
    &&& n.message_is_error == false
    &&& n.selected == o.selected
    &&& n.input_mode == o.input_mode
}

/// Deleting the provider under the cursor: the store drops it, the cursor
/// moves back inside the shortened list, and the caller owes a save.  With
/// no cursor nothing happens.
pub open spec fn delete_transition(o: TuiApp, n: TuiApp, r: TuiAction) -> bool {
    match o.spec_selected() {
        Some(pv) => {
            &&& n.config@ == (StoreOp::Remove { name: pv.name }).apply(o.config@)
            &&& r is SaveOnly
            &&& n.message.deep_view() == Some("Deleted provider '"@ + pv.name + "'"@)
            &&& n.message_is_error == false
            &&& n.selected == (if n.config@.providers.len() == 0 {
                Option::<usize>::None
            } else {
                match o.selected {
                    Some(i) => if i as int >= n.config@.providers.len() {
                        Some((n.config@.providers.len() - 1) as usize)
                    } else {
                        Some(i)
                    },
                    None => Option::<usize>::None,
                }
            })
            &&& n.input_mode == o.input_mode
        },
        None => n == o && r is Idle,
    }
}

/// Submitting the add-provider form.  Missing required fields leave the
/// form open with an error message; otherwise the record is added — an
/// empty model field means no model — the cursor jumps to the end of the
/// list, the form closes, and the caller owes a save.  Outside the form the
/// submission only closes back to the list.
pub open spec fn save_new_transition(o: TuiApp, n: TuiApp, r: TuiAction) -> bool {
    match o.input_mode {
        InputMode::AddProvider(state) => {
            if state.name@.len() == 0 || state.url@.len() == 0 || state.token@.len() == 0 {
                &&& n.config == o.config
                &&& n.input_mode == o.input_mode
                &&& n.message.deep_view() == Some("Name, URL, and Token are required"@)
                &&& n.message_is_error == true
                &&& n.selected == o.selected
                &&& r is Idle
            } else {
                &&& n.config@ == (StoreOp::Add {
                    name: state.name@,
                    api_url: state.url@,
                    token: state.token@,
                    model: if state.model@.len() == 0 {
                        Option::<Seq<char>>::None
                    } else {
                        Some(state.model@)
                    },
                }).apply(o.config@)
                &&& n.input_mode is Normal
                &&& n.message.deep_view() == Some("Added provider '"@ + state.name@ + "'"@)
                &&& n.message_is_error == false
                &&& n.selected == Some((n.config@.providers.len() - 1) as usize)
                &&& r is SaveOnly
            }
        },
        _ => {
            &&& n.config == o.config
            &&& n.input_mode is Normal
            &&& n.message == o.message
            &&& n.message_is_error == o.message_is_error
            &&& n.selected == o.selected
            &&& r is Idle
        },
    }
}

fn concat3(a: &str, b: &str, c: &str) -> (r: String)
    ensures
        r@ == a@ + b@ + c@,
{
    let mut out = String::new();
    out.append(a);
    out.append(b);
    out.append(c);
    out
}

impl TuiApp {
    /// A fresh screen over a loaded store: list mode, the cursor on the
    /// first provider when there is one, no message.
    pub fn new(config: Config) -> (r: TuiApp)
        ensures
            r.config == config,
            r.selected == (if config.providers.len() == 0 {
                Option::<usize>::None
            } else {
                Some(0usize)
            }),
            r.input_mode is Normal,
            r.message is None,
            r.message_is_error == false,
    {
        let selected: Option<usize> = if config.providers.len() == 0 {
            None
        } else {
            Some(0)
        };
        TuiApp { config, selected, input_mode: InputMode::Normal, message: None, message_is_error: false }
    }

    /// Moves the cursor one row down, wrapping.
    pub fn next(&mut self)
        ensures
            final(self).selected == nav_next(old(self).config@.providers.len(), old(self).selected),
            final(self).config == old(self).config,
            final(self).input_mode == old(self).input_mode,
            final(self).message == old(self).message,
            final(self).message_is_error == old(self).message_is_error,
    {
        let len = self.config.providers.len();
        if len == 0 {
            return;
        }
        let i = match self.selected {
            Some(i) => if i >= len - 1 {
                0
            } else {
                i + 1
            },
            None => 0,
        };
        self.selected = Some(i);
    }

    /// Moves the cursor one row up, wrapping.
    pub fn previous(&mut self)
        ensures
            final(self).selected == nav_prev(old(self).config@.providers.len(), old(self).selected),
            final(self).config == old(self).config,
            final(self).input_mode == old(self).input_mode,
            final(self).message == old(self).message,
            final(self).message_is_error == old(self).message_is_error,
    {
        let len = self.config.providers.len();
        if len == 0 {
            return;
        }
        let i = match self.selected {
            Some(i) => if i == 0 {
                len - 1
            } else {
                i - 1
            },
            None => 0,
        };
        self.selected = Some(i);
    }

    /// The record under the cursor.
    pub fn get_selected_provider(&self) -> (r: Option<&Provider>)
        ensures
            match r {
                Some(p) => self.spec_selected() == Some(p@),
                None => self.spec_selected() is None,
            },
    {
        match self.selected {
            Some(i) => if i < self.config.providers.len() {
                Some(&self.config.providers[i])
            } else {
                None
            },
            None => None,
        }
    }

    /// Switches the store's selection to the provider under the cursor.
    pub fn use_provider(&mut self) -> (r: TuiAction)
        ensures
            use_transition(*old(self), *final(self), r),
    {
        let p = match self.get_selected_provider() {
            Some(p) => p.clone(),
            None => {
                return TuiAction::Idle;
            },
        };
        proof {
            match old(self).selected {
                Some(i) => {
                    assert(old(self).config@.providers[i as int].name == p@.name);
                },
                None => {},
            }
        }
        self.config.set_current_provider(p.name.as_str());
        self.message = Some(concat3("Switched to provider '", p.name.as_str(), "'"));
        self.message_is_error = false;
        TuiAction::SaveAndApply { provider: p }
    }

    /// Drops the store's selection.
    pub fn clear_provider(&mut self) -> (r: TuiAction)
        ensures
            clear_transition(*old(self), *final(self), r),
    {
        self.config.clear_current_provider();
        self.message = Some("Cleared current provider".to_owned());
        self.message_is_error = false;
        TuiAction::SaveAndClear
    }

    /// Deletes the provider under the cursor and keeps the cursor inside
    /// the shortened list.
    pub fn delete_provider(&mut self) -> (r: TuiAction)
        ensures
            delete_transition(*old(self), *final(self), r),
    {
        let p = match self.get_selected_provider() {
            Some(p) => p.clone(),
            None => {
                return TuiAction::Idle;
            },
        };
        self.config.remove_provider(p.name.as_str());
        if self.config.providers.len() == 0 {
            self.selected = None;
        } else {
            match self.selected {
                Some(i) => {
                    if i >= self.config.providers.len() {
                        self.selected = Some(self.config.providers.len() - 1);
                    }
                },
                None => {},
            }
        }
        self.message = Some(concat3("Deleted provider '", p.name.as_str(), "'"));
        self.message_is_error = false;
        TuiAction::SaveOnly
    }

    /// Submits the add-provider form.
    pub fn save_new_provider(&mut self) -> (r: TuiAction)
        ensures
            save_new_transition(*old(self), *final(self), r),
    {
        let (name, url, token, model) = match &self.input_mode {
            InputMode::AddProvider(state) => (
                state.name.clone(),
                state.url.clone(),
                state.token.clone(),
                state.model.clone(),
            ),
            _ => {
                self.input_mode = InputMode::Normal;
                return TuiAction::Idle;
            },
        };
        if name.as_str().unicode_len() == 0 || url.as_str().unicode_len() == 0
            || token.as_str().unicode_len() == 0 {
            self.message = Some("Name, URL, and Token are required".to_owned());
            self.message_is_error = true;
            return TuiAction::Idle;
        }
        let model_opt: Option<String> = if model.as_str().unicode_len() == 0 {
            None
        } else {
            Some(model)
        };
        let msg = concat3("Added provider '", name.as_str(), "'");
        let ghost nv = name@;
        self.config.add_provider(name, url, token, model_opt);
        proof {
            let ops = old(self).config@.providers;
            crate::config::lemma_first_index_of(ops, nv);
            assert(self.config@.providers.len() > 0);
        }
        self.selected = Some(self.config.providers.len() - 1);
        self.message = Some(msg);
        self.message_is_error = false;
        self.input_mode = InputMode::Normal;
        TuiAction::SaveOnly
    }
}

/// A string with its last character removed; empty stays empty.
pub open spec fn popped(s: Seq<char>) -> Seq<char> {
    if s.len() == 0 {
        s
    } else {
        s.subrange(0, s.len() - 1)
    }
}

/// Stepping the cursor down; everything else stays.
pub open spec fn nav_next_step(o: TuiApp, n: TuiApp, r: TuiAction) -> bool {
    &&& n.selected == nav_next(o.config@.providers.len(), o.selected)
    &&& n.config == o.config
    &&& n.input_mode == o.input_mode
    &&& n.message == o.message
    &&& n.message_is_error == o.message_is_error
    &&& r is Idle
}

/// Stepping the cursor up; everything else stays.
pub open spec fn nav_prev_step(o: TuiApp, n: TuiApp, r: TuiAction) -> bool {
    &&& n.selected == nav_prev(o.config@.providers.len(), o.selected)
    &&& n.config == o.config
    &&& n.input_mode == o.input_mode
    &&& n.message == o.message
    &&& n.message_is_error == o.message_is_error
    &&& r is Idle
}

/// Opening the add-provider form: focus on the name, all fields empty, any
/// message dismissed.
pub open spec fn open_form_step(o: TuiApp, n: TuiApp, r: TuiAction) -> bool {
    &&& n.config == o.config
    &&& n.selected == o.selected
    &&& (n.input_mode matches InputMode::AddProvider(s) && {
        &&& s.current_field == 0
        &&& s.name@ == Seq::<char>::empty()
        &&& s.url@ == Seq::<char>::empty()
        &&& s.token@ == Seq::<char>::empty()
        &&& s.model@ == Seq::<char>::empty()
    })
    &&& n.message is None
    &&& n.message_is_error == o.message_is_error
    &&& r is Idle
}

/// Asking to delete: only with the cursor on a provider does the
/// confirmation open, and any message is dismissed.
pub open spec fn to_confirm_step(o: TuiApp, n: TuiApp, r: TuiAction) -> bool {
    if o.spec_selected() is Some {
        &&& n.config == o.config
        &&& n.selected == o.selected
        &&& n.input_mode is DeleteConfirm
        &&& n.message is None
        &&& n.message_is_error == o.message_is_error
        &&& r is Idle
    } else {
        n == o && r is Idle
    }
}

/// The list-mode row of the transition table.
pub open spec fn normal_step(o: TuiApp, key: Key, ctrl: bool, n: TuiApp, r: TuiAction) -> bool {
    match key {
        Key::Esc => n == o && r is Quit,
        Key::Down => nav_next_step(o, n, r),
        Key::Up => nav_prev_step(o, n, r),
        Key::Enter => use_transition(o, n, r),
        Key::Char(c) => if c == 'q' || (c == 'c' && ctrl) {
            n == o && r is Quit
        } else if c == 'j' {
            nav_next_step(o, n, r)
        } else if c == 'k' {
            nav_prev_step(o, n, r)
        } else if c == 'u' {
            use_transition(o, n, r)
        } else if c == 'a' {
            open_form_step(o, n, r)
        } else if c == 'd' {
            to_confirm_step(o, n, r)
        } else if c == 'c' {
            clear_transition(o, n, r)
        } else {
            n == o && r is Idle
        },
        _ => n == o && r is Idle,
    }
}

/// Everything of the screen but the form stays as it was.
pub open spec fn form_common(o: TuiApp, n: TuiApp) -> bool {
    &&& n.config == o.config
    &&& n.selected == o.selected
    &&& n.message == o.message
    &&& n.message_is_error == o.message_is_error
}

/// The form's fields after a transition: focus moved to `cf`, texts as
/// given.
pub open spec fn form_fields(
    n: TuiApp,
    cf: int,
    name: Seq<char>,
    url: Seq<char>,
    token: Seq<char>,
    model: Seq<char>,
) -> bool {
    n.input_mode matches InputMode::AddProvider(s) && {
        &&& s.current_field == cf
        &&& s.name@ == name
        &&& s.url@ == url
        &&& s.token@ == token
        &&& s.model@ == model
    }
}

/// The form-mode row of the transition table: Esc cancels, Tab and BackTab
/// cycle the focus, Enter advances and submits from the last field,
/// Backspace and printable keys edit the focused field.
pub open spec fn form_step(
    o: TuiApp,
    state: AddProviderState,
    key: Key,
    n: TuiApp,
    r: TuiAction,
) -> bool {
    let cf = state.current_field as int;
    match key {
        Key::Esc => {
            &&& n.config == o.config
            &&& n.selected == o.selected
            &&& n.input_mode is Normal
            &&& n.message is None
            &&& n.message_is_error == o.message_is_error
            &&& r is Idle
        },
        Key::Tab => {
            &&& form_common(o, n)
            &&& form_fields(
                n,
                if cf >= 3 {
                    0
                } else {
                    cf + 1
                },
                state.name@,
                state.url@,
                state.token@,
                state.model@,
            )
            &&& r is Idle
        },
        Key::BackTab => {
            &&& form_common(o, n)
            &&& form_fields(
                n,
                if cf == 0 {
                    3
                } else {
                    cf - 1
                },
                state.name@,
                state.url@,
                state.token@,
                state.model@,
            )
            &&& r is Idle
        },
        Key::Enter => if cf == 3 {
            save_new_transition(o, n, r)
        } else if cf < 3 {
            &&& form_common(o, n)
            &&& form_fields(n, cf + 1, state.name@, state.url@, state.token@, state.model@)
            &&& r is Idle
        } else {
            n == o && r is Idle
        },
        Key::Backspace => {
            &&& form_common(o, n)
            &&& form_fields(
                n,
                cf,
                if cf == 0 {
                    popped(state.name@)
                } else {
                    state.name@
                },
                if cf == 1 {
                    popped(state.url@)
                } else {
                    state.url@
                },
                if cf == 2 {
                    popped(state.token@)
                } else {
                    state.token@
                },
                if cf == 3 {
                    popped(state.model@)
                } else {
                    state.model@
                },
            )
            &&& r is Idle
        },
        Key::Char(c) => {
            &&& form_common(o, n)
            &&& form_fields(
                n,
                cf,
                if cf == 0 {
                    state.name@.push(c)
                } else {
                    state.name@
                },
                if cf == 1 {
                    state.url@.push(c)
                } else {
                    state.url@
                },
                if cf == 2 {
                    state.token@.push(c)
                } else {
                    state.token@
                },
                if cf == 3 {
                    state.model@.push(c)
                } else {
                    state.model@
                },
            )
            &&& r is Idle
        },
        _ => n == o && r is Idle,
    }
}

/// Backing out of the confirmation.
pub open spec fn cancel_confirm_step(o: TuiApp, n: TuiApp, r: TuiAction) -> bool {
    &&& n.config == o.config
    &&& n.selected == o.selected
    &&& n.input_mode is Normal
    &&& n.message is None
    &&& n.message_is_error == o.message_is_error
    &&& r is Idle
}

/// Confirming the deletion: the provider under the cursor goes, and the
/// screen returns to the list.
pub open spec fn delete_then_normal(o: TuiApp, n: TuiApp, r: TuiAction) -> bool {
    match o.spec_selected() {
        Some(pv) => {
            &&& n.config@ == (StoreOp::Remove { name: pv.name }).apply(o.config@)
            &&& r is SaveOnly
            &&& n.message.deep_view() == Some("Deleted provider '"@ + pv.name + "'"@)
            &&& n.message_is_error == false
            &&& n.selected == (if n.config@.providers.len() == 0 {
                Option::<usize>::None
            } else {
                match o.selected {
                    Some(i) => if i as int >= n.config@.providers.len() {
                        Some((n.config@.providers.len() - 1) as usize)
                    } else {
                        Some(i)
                    },
                    None => Option::<usize>::None,
                }
            })
            &&& n.input_mode is Normal
        },
        None => {
            &&& n.config == o.config
            &&& n.selected == o.selected
            &&& n.message == o.message
            &&& n.message_is_error == o.message_is_error
            &&& n.input_mode is Normal
            &&& r is Idle
        },
    }
}

/// The confirmation-mode row of the transition table.
pub open spec fn confirm_step(o: TuiApp, key: Key, n: TuiApp, r: TuiAction) -> bool {
    match key {
        Key::Char(c) => if c == 'y' || c == 'Y' {
            delete_then_normal(o, n, r)
        } else if c == 'n' || c == 'N' {
            cancel_confirm_step(o, n, r)
        } else {
            n == o && r is Idle
        },
        Key::Esc => cancel_confirm_step(o, n, r),
        _ => n == o && r is Idle,
    }
}

/// The whole transition table, one row per modal state.
pub open spec fn step_transition(o: TuiApp, key: Key, ctrl: bool, n: TuiApp, r: TuiAction) -> bool {
    match o.input_mode {
        InputMode::Normal => normal_step(o, key, ctrl, n, r),
        InputMode::AddProvider(state) => form_step(o, state, key, n, r),
        InputMode::DeleteConfirm => confirm_step(o, key, n, r),
    }
}

impl TuiApp {
    /// Feeds one key event through the transition table.
    pub fn handle_input(&mut self, key: Key, ctrl: bool) -> (r: TuiAction)
        ensures
            step_transition(*old(self), key, ctrl, *final(self), r),
    {
        let mode_kind: usize = match &self.input_mode {
            InputMode::Normal => 0,
            InputMode::AddProvider(_) => 1,
            InputMode::DeleteConfirm => 2,
        };
        if mode_kind == 0 {
            match key {
                Key::Esc => TuiAction::Quit,
                Key::Down => {
                    self.next();
                    TuiAction::Idle
                },
                Key::Up => {
                    self.previous();
                    TuiAction::Idle
                },
                Key::Enter => self.use_provider(),
                Key::Char(c) => {
                    if c == 'q' || (c == 'c' && ctrl) {
                        TuiAction::Quit
                    } else if c == 'j' {
                        self.next();
                        TuiAction::Idle
                    } else if c == 'k' {
                        self.previous();
                        TuiAction::Idle
                    } else if c == 'u' {
                        self.use_provider()
                    } else if c == 'a' {
                        self.input_mode = InputMode::AddProvider(
                            AddProviderState {
                                current_field: 0,
                                name: String::new(),
                                url: String::new(),
                                token: String::new(),
                                model: String::new(),
                            },
                        );
                        self.message = None;
                        TuiAction::Idle
                    } else if c == 'd' {
                        if self.get_selected_provider().is_some() {
                            self.input_mode = InputMode::DeleteConfirm;
                            self.message = None;
                        }
                        TuiAction::Idle
                    } else if c == 'c' {
                        self.clear_provider()
                    } else {
                        TuiAction::Idle
                    }
                },
                _ => TuiAction::Idle,
            }
        } else if mode_kind == 1 {
            let st_old = match &self.input_mode {
                InputMode::AddProvider(state) => AddProviderState {
                    current_field: state.current_field,
                    name: state.name.clone(),
                    url: state.url.clone(),
                    token: state.token.clone(),
                    model: state.model.clone(),
                },
                _ => {
                    proof {
                        assert(false);
                    }
                    AddProviderState {
                        current_field: 0,
                        name: String::new(),
                        url: String::new(),
                        token: String::new(),
                        model: String::new(),
                    }
                },
            };
            match key {
                Key::Esc => {
                    self.input_mode = InputMode::Normal;
                    self.message = None;
                    TuiAction::Idle
                },
                Key::Tab => {
                    let mut st = st_old;
                    st.current_field = if st.current_field >= 3 {
                        0
                    } else {
                        st.current_field + 1
                    };
                    self.input_mode = InputMode::AddProvider(st);
                    TuiAction::Idle
                },
                Key::BackTab => {
                    let mut st = st_old;
                    st.current_field = if st.current_field == 0 {
                        3
                    } else {
                        st.current_field - 1
                    };
                    self.input_mode = InputMode::AddProvider(st);
                    TuiAction::Idle
                },
                Key::Enter => {
                    if st_old.current_field == 3 {
                        self.save_new_provider()
                    } else if st_old.current_field < 3 {
                        let mut st = st_old;
                        st.current_field = st.current_field + 1;
                        self.input_mode = InputMode::AddProvider(st);
                        TuiAction::Idle
                    } else {
                        TuiAction::Idle
                    }
                },
                Key::Backspace => {
                    let mut st = st_old;
                    if st.current_field == 0 {
                        let _ = pop_char(&mut st.name);
                    } else if st.current_field == 1 {
                        let _ = pop_char(&mut st.url);
                    } else if st.current_field == 2 {
                        let _ = pop_char(&mut st.token);
                    } else if st.current_field == 3 {
                        let _ = pop_char(&mut st.model);
                    }
                    self.input_mode = InputMode::AddProvider(st);
                    TuiAction::Idle
                },
                Key::Char(c) => {
                    let mut st = st_old;
                    if st.current_field == 0 {
                        push_char(&mut st.name, c);
                    } else if st.current_field == 1 {
                        push_char(&mut st.url, c);
                    } else if st.current_field == 2 {
                        push_char(&mut st.token, c);
                    } else if st.current_field == 3 {
                        push_char(&mut st.model, c);
                    }
                    self.input_mode = InputMode::AddProvider(st);
                    TuiAction::Idle
                },
                _ => TuiAction::Idle,
            }
        } else {
            match key {
                Key::Char(c) => {
                    if c == 'y' || c == 'Y' {
                        let r = self.delete_provider();
                        self.input_mode = InputMode::Normal;
                        r
                    } else if c == 'n' || c == 'N' {
                        self.input_mode = InputMode::Normal;
                        self.message = None;
                        TuiAction::Idle
                    } else {
                        TuiAction::Idle
                    }
                },
                Key::Esc => {
                    self.input_mode = InputMode::Normal;
                    self.message = None;
                    TuiAction::Idle
                },
                _ => TuiAction::Idle,
            }
        }
    }
}

} // verus!
