//! The menus: which entries are enabled, how recent profiles are laid out,
//! and when a submenu of the immediate-mode console opens or closes.

use vstd::prelude::*;
use crate::console::{language_of, LanguageChoice};
use crate::locale::AppLanguage;

verus! {

/// Recent profiles shown directly in the menu; the rest go to a submenu.
pub const RECENT_SHOWN: usize = 3;

/// What the menu bar shows, given the console's state.
#[derive(Debug, PartialEq, Eq)]
pub struct MenuModel {
    /// "Disconnect" needs a running session.
    pub disconnect_enabled: bool,
    /// Copying and saving a screenshot need a frame.
    pub screenshot_enabled: bool,
    /// Pasting waits until the previous paste was typed.
    pub paste_enabled: bool,
    /// The first recent profiles, in order.
    pub recent: Vec<String>,
    /// The remaining recent profiles, in order, for the "more" submenu.
    pub recent_more: Vec<String>,
    /// Which language entry carries the check mark.
    pub checked_language: LanguageChoice,
}

/// The language entry that stands for the current language.
pub open spec fn checked_choice(language: AppLanguage) -> LanguageChoice {
    match language {
        AppLanguage::System => LanguageChoice::System,
        AppLanguage::Chinese => LanguageChoice::Chinese,
        AppLanguage::English => LanguageChoice::English,
    }
}

/// Whether a language entry is checked for the current language.
pub fn language_checked(option: LanguageChoice, current: AppLanguage) -> (r: bool)
    ensures
        r == (language_of(option) == current),
{
    let language = AppLanguage::from(option);
    language == current
}

/// The menu bar for this state (see [`MenuModel`]).
pub fn menu_model(
    recent_profiles: &Vec<String>,
    paste_busy: bool,
    language: AppLanguage,
    online: bool,
    has_frame: bool,
) -> (r: MenuModel)
    ensures
        r.disconnect_enabled == online,
        r.screenshot_enabled == has_frame,
        r.paste_enabled == !paste_busy,
        r.recent@ == recent_profiles@.take(
            if recent_profiles@.len() < RECENT_SHOWN {
                recent_profiles@.len() as int
            } else {
                RECENT_SHOWN as int
            },
        ),
        r.recent_more@ == (if recent_profiles@.len() <= RECENT_SHOWN {
            Seq::empty()
        } else {
            recent_profiles@.skip(RECENT_SHOWN as int)
        }),
        r.checked_language == checked_choice(language),
        language_of(r.checked_language) == language,
{
    let mut recent: Vec<String> = Vec::new();
    let mut recent_more: Vec<String> = Vec::new();
    let n = recent_profiles.len();
    let mut i: usize = 0;
    while i < n
        invariant
            n == recent_profiles@.len(),
            i <= n,
            recent@ == recent_profiles@.take(
                if i < RECENT_SHOWN {
                    i as int
                } else {
                    RECENT_SHOWN as int
                },
            ),
            recent_more@ == (if i <= RECENT_SHOWN {
                Seq::empty()
            } else {
                recent_profiles@.subrange(RECENT_SHOWN as int, i as int)
            }),
        decreases n - i,
    {
        if i < RECENT_SHOWN {
            recent.push(recent_profiles[i].clone());
            assert(recent_profiles@.take(i + 1) =~= recent_profiles@.take(i as int).push(
                recent_profiles@[i as int],
            ));
        } else {
            recent_more.push(recent_profiles[i].clone());
            assert(recent_profiles@.subrange(RECENT_SHOWN as int, i + 1) =~= recent_profiles@.subrange(
                RECENT_SHOWN as int,
                i as int,
            ).push(recent_profiles@[i as int]));
        }
        i = i + 1;
    }
    proof {
        if n > RECENT_SHOWN {
            assert(recent_profiles@.subrange(RECENT_SHOWN as int, n as int) =~= recent_profiles@.skip(
                RECENT_SHOWN as int,
            ));
        }
    }
    let checked_language = match language {
        AppLanguage::System => LanguageChoice::System,
        AppLanguage::Chinese => LanguageChoice::Chinese,
        AppLanguage::English => LanguageChoice::English,
    };
    MenuModel {
        disconnect_enabled: online,
        screenshot_enabled: has_frame,
        paste_enabled: !paste_busy,
        recent,
        recent_more,
        checked_language,
    }
}

/// When clicks close an open submenu.
#[derive(Clone, Copy, Debug, PartialEq, Eq, Structural)]
pub enum CloseBehavior {
    /// Any click outside or on an entry.
    CloseOnClick,
    /// Only clicks outside the menu.
    CloseOnClickOutside,
    /// Clicks never close it.
    IgnoreClicks,
}

/// What the toolkit reports about a submenu entry this frame.
#[derive(Clone, Copy, Debug, PartialEq, Eq, Structural)]
pub struct SubmenuFrame {
    /// The menu is enabled.
    pub enabled: bool,
    /// The entry was clicked.
    pub clicked: bool,
    /// The pointer is over the entry.
    pub hovered: bool,
    /// Some submenu of this menu is open.
    pub any_open: bool,
    /// This submenu is open.
    pub open: bool,
    /// No deeper submenu is open.
    pub deepest: bool,
    /// A click landed outside the submenu's popup.
    pub popup_clicked_elsewhere: bool,
    /// A click landed outside the parent menu.
    pub root_clicked_elsewhere: bool,
    /// Some click happened.
    pub any_click: bool,
    /// The pointer is inside the submenu's popup area.
    pub pointer_in_popup: bool,
    /// The popup reports the pointer over it.
    pub popup_has_pointer: bool,
    /// The popup asks to be closed.
    pub popup_should_close: bool,
    /// The pointer moves towards the popup.
    pub moving_towards_popup: bool,
    /// The pointer is over another entry of the parent menu.
    pub hovering_menu: bool,
    /// How clicks close the menu.
    pub close_behavior: CloseBehavior,
}

/// What a frame does to a submenu: whether it is shown this frame, whether
/// it opens or closes for the next one, and whether the menu closes.
#[derive(Clone, Copy, Debug, PartialEq, Eq, Structural)]
pub struct SubmenuStep {
    pub shown: bool,
    pub set_open: Option<bool>,
    pub close_menu: bool,
}

/// An enabled entry opens on a click, or on hover while no submenu is open.
pub open spec fn opens(f: SubmenuFrame) -> bool {
    f.enabled && (f.clicked || (f.hovered && !f.any_open))
}

/// A shown submenu that is the deepest one closes the menu on a click
/// outside both menus, or (when clicks close) on a click inside that is not
/// on its own entry.
pub open spec fn click_closes(f: SubmenuFrame) -> bool {
    let outside = f.deepest && f.popup_clicked_elsewhere && f.root_clicked_elsewhere;
    let inside = f.deepest && !f.clicked && f.any_click && f.pointer_in_popup;
    match f.close_behavior {
        CloseBehavior::CloseOnClick => outside || inside,
        CloseBehavior::CloseOnClickOutside => outside,
        CloseBehavior::IgnoreClicks => false,
    }
}

/// The submenu's decisions for one frame (see [`SubmenuStep`]): it is shown
/// when open or opening; a closing click closes it and the menu, as does the
/// popup asking to close; hovering another entry of the parent menu, not
/// moving towards the popup, closes it.
pub open spec fn submenu_outcome(f: SubmenuFrame) -> SubmenuStep {
    let shown = f.open || opens(f);
    let set_open = if opens(f) {
        Some(true)
    } else {
        None
    };
    if !shown {
        SubmenuStep { shown, set_open, close_menu: false }
    } else {
        let closing = click_closes(f);
        let set_open = if closing {
            Some(false)
        } else {
            set_open
        };
        let hovering_other = !f.hovered && !f.popup_has_pointer && !f.moving_towards_popup
            && f.hovering_menu;
        let set_open = if hovering_other {
            Some(false)
        } else {
            set_open
        };
        SubmenuStep { shown, set_open, close_menu: closing || f.popup_should_close }
    }
}

/// Decides what a frame does to a submenu (see [`submenu_outcome`]).
pub fn submenu_step(f: SubmenuFrame) -> (r: SubmenuStep)
    ensures
        r == submenu_outcome(f),
{
    let should_open = f.enabled && (f.clicked || (f.hovered && !f.any_open));
    let mut set_open: Option<bool> = None;
    let mut shown = f.open;
    if should_open {
        set_open = Some(true);
        shown = true;
    }
    if !shown {
        return SubmenuStep { shown, set_open, close_menu: false };
    }
    let outside = f.deepest && f.popup_clicked_elsewhere && f.root_clicked_elsewhere;
    let inside = f.deepest && !f.clicked && f.any_click && f.pointer_in_popup;
    let closing = match f.close_behavior {
        CloseBehavior::CloseOnClick => outside || inside,
        CloseBehavior::CloseOnClickOutside => outside,
        CloseBehavior::IgnoreClicks => false,
    };
    if closing {
        set_open = Some(false);
    }
    if !f.hovered && !f.popup_has_pointer && !f.moving_towards_popup && f.hovering_menu {
        set_open = Some(false);
    }
    SubmenuStep { shown, set_open, close_menu: closing || f.popup_should_close }
}

/// A disabled entry never opens its submenu.
pub proof fn lemma_disabled_never_opens(f: SubmenuFrame)
    requires
        !f.enabled,
        !f.open,
    ensures
        !submenu_outcome(f).shown,
        submenu_outcome(f).set_open is None,
{
}

/// With clicks ignored, clicks never close the menu.
pub proof fn lemma_ignored_clicks_keep_menu(f: SubmenuFrame)
    requires
        f.close_behavior == CloseBehavior::IgnoreClicks,
        !f.popup_should_close,
    ensures
        !submenu_outcome(f).close_menu,
{
}

} // verus!
