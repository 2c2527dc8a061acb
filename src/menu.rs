use vstd::prelude::*;

verus! {

/// The three commands that the tray menu offers.
#[derive(Clone, Copy, Debug, PartialEq, Eq, Structural)]
pub enum MenuCommand {
    Show,
    Hide,
    Quit,
}

/// One row of the tray menu: a command's item, or a visual divider.
#[derive(Clone, Copy, Debug, PartialEq, Eq, Structural)]
pub enum MenuEntry {
    Item(MenuCommand),
    Separator,
}

/// The identifier under which a command's menu item is registered.
pub open spec fn command_id(c: MenuCommand) -> Seq<char> {
    match c {
        MenuCommand::Show => seq!['s', 'h', 'o', 'w'],
        MenuCommand::Hide => seq!['h', 'i', 'd', 'e'],
        MenuCommand::Quit => seq!['q', 'u', 'i', 't'],
    }
}

/// The text that a command's menu item displays.
pub open spec fn command_label(c: MenuCommand) -> Seq<char> {
    match c {
        MenuCommand::Show => seq!['S', 'h', 'o', 'w'],
        MenuCommand::Hide => seq!['H', 'i', 'd', 'e'],
        MenuCommand::Quit => seq!['Q', 'u', 'i', 't'],
    }
}

/// The command whose identifier is `id`, if any.
pub open spec fn command_of(id: Seq<char>) -> Option<MenuCommand> {
    if id == command_id(MenuCommand::Show) {
        Some(MenuCommand::Show)
    } else if id == command_id(MenuCommand::Hide) {
        Some(MenuCommand::Hide)
    } else if id == command_id(MenuCommand::Quit) {
        Some(MenuCommand::Quit)
    } else {
        None
    }
}

/// The tray menu, top to bottom: show, hide, a divider, quit.
pub open spec fn tray_menu_layout() -> Seq<MenuEntry> {
    seq![
        MenuEntry::Item(MenuCommand::Show),
        MenuEntry::Item(MenuCommand::Hide),
        MenuEntry::Separator,
        MenuEntry::Item(MenuCommand::Quit),
    ]
}

impl MenuCommand {
    /// The identifier under which this command's item is registered.
    pub fn id(&self) -> (r: &'static str)
        ensures
            r@ == command_id(*self),
    {
        match self {
            MenuCommand::Show => {
                proof {
                    reveal_strlit("show");
                }
                "show"
            },
            MenuCommand::Hide => {
                proof {
                    reveal_strlit("hide");
                }
                "hide"
            },
            MenuCommand::Quit => {
                proof {
                    reveal_strlit("quit");
                }
                "quit"
            },
        }
    }

    /// The text that this command's item displays.
    pub fn label(&self) -> (r: &'static str)
        ensures
            r@ == command_label(*self),
    {
        match self {
            MenuCommand::Show => {
                proof {
                    reveal_strlit("Show");
                }
                "Show"
            },
            MenuCommand::Hide => {
                proof {
                    reveal_strlit("Hide");
                }
                "Hide"
            },
            MenuCommand::Quit => {
                proof {
                    reveal_strlit("Quit");
                }
                "Quit"
            },
        }
    }
}

/// True when `a` and `b` hold the same characters.
pub fn same_text(a: &str, b: &str) -> (r: bool)
    ensures
        r == (a@ == b@),
{
    let n = a.unicode_len();
    if n != b.unicode_len() {
        return false;
    }
    let mut i: usize = 0;
    while i < n
        invariant
            n == a@.len(),
            n == b@.len(),
            i <= n,
            forall|j: int| 0 <= j < i ==> a@[j] == b@[j],
        decreases n - i,
    {
        if a.get_char(i) != b.get_char(i) {
            return false;
        }
        i = i + 1;
    }
    assert(a@ =~= b@);
    true
}

/// The command registered under `id`; `None` for any identifier the menu
/// does not define.
pub fn command_of_id(id: &str) -> (r: Option<MenuCommand>)
    ensures
        r == command_of(id@),
{
    let show = MenuCommand::Show;
    let hide = MenuCommand::Hide;
    let quit = MenuCommand::Quit;
    if same_text(id, show.id()) {
        Some(show)
    } else if same_text(id, hide.id()) {
        Some(hide)
    } else if same_text(id, quit.id()) {
        Some(quit)
    } else {
        None
    }
}

/// The entries of the tray menu, in display order.
pub fn tray_menu() -> (r: Vec<MenuEntry>)
    ensures
        r@ == tray_menu_layout(),
{
    let mut entries: Vec<MenuEntry> = Vec::new();
    entries.push(MenuEntry::Item(MenuCommand::Show));
    entries.push(MenuEntry::Item(MenuCommand::Hide));
    entries.push(MenuEntry::Separator);
    entries.push(MenuEntry::Item(MenuCommand::Quit));
    assert(entries@ =~= tray_menu_layout());
    entries
}

} // verus!
