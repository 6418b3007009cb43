//! A paginator: it counts pages, moves between them on keystrokes and shows
//! where one is. It does not render the pages themselves.

use vstd::prelude::*;
use crate::color::{color_text, colored};
use crate::input::Key;
use crate::text::{decimal, push_char, push_decimal};

verus! {

/// How the pagination is shown.
#[derive(Clone, Copy, Debug, PartialEq, Eq)]
pub enum PaginatorType {
    /// As `page/pages`, in Arabic numerals.
    Arabic,
    /// As a row of dots, the current page's dot set off.
    Dots,
}

/// The bullet that stands for a page.
pub const DOT: char = '\u{2022}';

/// The state of a paginator.
#[derive(Clone)]
pub struct Model {
    paginator_type: PaginatorType,
    page: i32,
    per_page: i32,
    total_pages: i32,
    active_dot: String,
    inactive_dot: String,
    use_left_right_keys: bool,
    use_up_down_keys: bool,
    use_h_l_keys: bool,
    use_j_k_keys: bool,
}

/// The smaller of two numbers.
pub open spec fn smaller(a: int, b: int) -> int {
    if a < b {
        a
    } else {
        b
    }
}

fn min(a: i32, b: i32) -> (r: i32)
    ensures
        r == smaller(a as int, b as int),
{
    if a < b {
        return a;
    }
    b
}

/// How many pages `items` items fill, `per_page` to a page.
pub open spec fn pages_for(items: int, per_page: int) -> int {
    if items % per_page > 0 {
        items / per_page + 1
    } else {
        items / per_page
    }
}

/// The row of dots for the pages from 0 up to `pages`, the dot of `page`
/// being `active` and the others `inactive`.
pub open spec fn dots(pages: int, page: int, active: Seq<char>, inactive: Seq<char>) -> Seq<char>
    decreases pages,
{
    if pages <= 0 {
        Seq::<char>::empty()
    } else if pages - 1 == page {
        dots(pages - 1, page, active, inactive) + active
    } else {
        dots(pages - 1, page, active, inactive) + inactive
    }
}

/// One of the four pairs of keys: where the pair is enabled, its first key
/// goes a page back and its second a page on; any other key ends the
/// handling of the keystroke. Returns the page and whether the handling
/// goes on to the next pair.
pub open spec fn pair_of_keys(
    enabled: bool,
    back: Key,
    on: Key,
    event: Key,
    page: int,
    total_pages: int,
) -> (int, bool) {
    if !enabled {
        (page, true)
    } else if event == back {
        (page_back(page), true)
    } else if event == on {
        (page_on(page, total_pages), true)
    } else {
        (page, false)
    }
}

/// The page before `page`; page 0 stays.
pub open spec fn page_back(page: int) -> int {
    if page > 0 {
        page - 1
    } else {
        page
    }
}

/// The page after `page`; the last page stays.
pub open spec fn page_on(page: int, total_pages: int) -> int {
    if page == total_pages - 1 {
        page
    } else {
        page + 1
    }
}

impl Model {
    /// The current page, counted from 0.
    pub closed spec fn page(&self) -> int {
        self.page as int
    }

    /// How many items a page holds.
    pub closed spec fn per_page(&self) -> int {
        self.per_page as int
    }

    /// How many pages there are.
    pub closed spec fn total_pages(&self) -> int {
        self.total_pages as int
    }

    /// How the pagination is shown.
    pub closed spec fn shown_as(&self) -> PaginatorType {
        self.paginator_type
    }

    /// The dot of the current page.
    pub closed spec fn active_dot(&self) -> Seq<char> {
        self.active_dot@
    }

    /// The dot of every other page.
    pub closed spec fn inactive_dot(&self) -> Seq<char> {
        self.inactive_dot@
    }

    /// Which pairs of keys move between pages: left and right, up and down,
    /// `h` and `l`, `j` and `k`.
    pub closed spec fn keys(&self) -> (bool, bool, bool, bool) {
        (self.use_left_right_keys, self.use_up_down_keys, self.use_h_l_keys, self.use_j_k_keys)
    }

    /// A page holds at least one item, and the current page is not negative.
    pub closed spec fn wf(&self) -> bool {
        self.per_page >= 1 && self.page >= 0
    }

    /// The other paginator differs from this one in the page at most.
    pub open spec fn same_but_page(&self, other: &Model) -> bool {
        &&& self.per_page() == other.per_page()
        &&& self.total_pages() == other.total_pages()
        &&& self.shown_as() == other.shown_as()
        &&& self.active_dot() == other.active_dot()
        &&& self.inactive_dot() == other.inactive_dot()
        &&& self.keys() == other.keys()
    }

    /// A paginator with its defaults: dots, one page of one item, the keys
    /// left, right, `h` and `l`. The dots are bullets followed by the
    /// terminal's sequences for a bright and a dark grey.
    pub fn new() -> (model: Model)
        ensures
            model.wf(),
            model.page() == 0,
            model.per_page() == 1,
            model.total_pages() == 1,
            model.shown_as() == PaginatorType::Dots,
            model.keys() == (true, false, true, false),
            colored(seq![DOT], "#DDDADA"@, model.active_dot()),
            colored(seq![DOT], "#847A85"@, model.inactive_dot()),
    {
        let mut dot = String::new();
        push_char(&mut dot, DOT);
        assert(dot@ =~= seq![DOT]);
        Model {
            paginator_type: PaginatorType::Dots,
            page: 0,
            per_page: 1,
            total_pages: 1,
            active_dot: color_text(dot.as_str(), "#DDDADA"),
            inactive_dot: color_text(dot.as_str(), "#847A85"),
            use_left_right_keys: true,
            use_up_down_keys: false,
            use_h_l_keys: true,
            use_j_k_keys: false,
        }
    }

    /// Sets the number of pages to what `items` items fill, and returns it.
    /// For less than one item nothing changes and the number of pages as it
    /// is comes back.
    pub fn set_total_pages(&mut self, items: i32) -> (pages: i32)
        requires
            old(self).wf(),
        ensures
            final(self).wf(),
            final(self).page() == old(self).page(),
            final(self).per_page() == old(self).per_page(),
            final(self).shown_as() == old(self).shown_as(),
            final(self).active_dot() == old(self).active_dot(),
            final(self).inactive_dot() == old(self).inactive_dot(),
            final(self).keys() == old(self).keys(),
            pages == final(self).total_pages(),
            items < 1 ==> pages == old(self).total_pages(),
            items >= 1 ==> pages == pages_for(items as int, old(self).per_page()),
    {
        if items < 1 {
            return self.total_pages;
        }
        let mut n = items / self.per_page;
        if items % self.per_page > 0 {
            assert(items / self.per_page < items) by (nonlinear_arith)
                requires
                    items >= 1,
                    self.per_page >= 1,
                    items % self.per_page > 0,
            ;
            n += 1;
        }
        self.total_pages = n;
        n
    }

    /// Chooses how the pagination is shown.
    pub fn paginator_type(&mut self, paginator_type: PaginatorType)
        ensures
            final(self).shown_as() == paginator_type,
            final(self).wf() == old(self).wf(),
            final(self).page() == old(self).page(),
            final(self).per_page() == old(self).per_page(),
            final(self).total_pages() == old(self).total_pages(),
            final(self).active_dot() == old(self).active_dot(),
            final(self).inactive_dot() == old(self).inactive_dot(),
            final(self).keys() == old(self).keys(),
    {
        self.paginator_type = paginator_type;
    }

    /// Whether the first item after the current page has an index that the
    /// machine's integers hold.
    pub open spec fn in_range(&self) -> bool {
        self.page() * self.per_page() + self.per_page() <= i32::MAX
    }

    /// How many of `total_items` items are on the current page.
    pub fn items_on_page(&self, total_items: i32) -> (items: i32)
        requires
            self.wf(),
            self.in_range(),
        ensures
            total_items < 1 ==> items == 0,
            total_items >= 1 ==> items == smaller(
                self.page() * self.per_page() + self.per_page(),
                total_items as int,
            ) - self.page() * self.per_page(),
    {
        if total_items < 1 {
            return 0;
        }
        let (start, end) = self.slice_bounds(total_items);
        assert(start >= 0) by (nonlinear_arith)
            requires
                start == self.page * self.per_page,
                self.page >= 0,
                self.per_page >= 1,
        ;
        end - start
    }

    /// The bounds of the current page in a list of `length` items: where it
    /// starts, and where it ends, which is no further than the list goes.
    pub fn slice_bounds(&self, length: i32) -> (bounds: (i32, i32))
        requires
            self.wf(),
            self.in_range(),
        ensures
            bounds.0 == self.page() * self.per_page(),
            bounds.1 == smaller(self.page() * self.per_page() + self.per_page(), length as int),
    {
        assert(0 <= self.page * self.per_page <= i32::MAX) by (nonlinear_arith)
            requires
                self.page >= 0,
                self.per_page >= 1,
                self.page * self.per_page + self.per_page <= i32::MAX,
        ;
        let start = self.page * self.per_page;
        let end = min(self.page * self.per_page + self.per_page, length);
        (start, end)
    }

    /// Goes one page back; page 0 stays.
    pub fn prev_page(&mut self)
        ensures
            final(self).page() == page_back(old(self).page()),
            final(self).same_but_page(old(self)),
            old(self).wf() ==> final(self).wf(),
    {
        if self.page > 0 {
            self.page -= 1;
        }
    }

    /// Goes one page on; the last page stays.
    pub fn next_page(&mut self)
        requires
            old(self).page() < i32::MAX,
        ensures
            final(self).page() == page_on(old(self).page(), old(self).total_pages()),
            final(self).same_but_page(old(self)),
            old(self).wf() ==> final(self).wf(),
    {
        if !self.on_last_page() {
            self.page += 1;
        }
    }

    /// Whether the current page is the last.
    pub fn on_last_page(&self) -> (last: bool)
        ensures
            last == (self.page() == self.total_pages() - 1),
    {
        self.total_pages > i32::MIN && self.page == self.total_pages - 1
    }

    /// The page after a keystroke: the four pairs of keys are gone through
    /// in order, each enabled pair moving the page or ending the handling.
    pub open spec fn page_after(&self, event: Key) -> int {
        let total = self.total_pages();
        let first = pair_of_keys(self.keys().0, Key::Left, Key::Right, event, self.page(), total);
        if !first.1 {
            first.0
        } else {
            let second = pair_of_keys(self.keys().1, Key::Up, Key::Down, event, first.0, total);
            if !second.1 {
                second.0
            } else {
                let third = pair_of_keys(
                    self.keys().2,
                    Key::Char('h'),
                    Key::Char('l'),
                    event,
                    second.0,
                    total,
                );
                if !third.1 {
                    third.0
                } else {
                    pair_of_keys(
                        self.keys().3,
                        Key::Char('j'),
                        Key::Char('k'),
                        event,
                        third.0,
                        total,
                    ).0
                }
            }
        }
    }
}

/// Binds keystrokes to pagination: the page moves as the enabled pairs of
/// keys say. No message comes of it.
pub fn input<MSG>(m: &mut Model, event: Key) -> (msg: Option<MSG>)
    requires
        old(m).page() < i32::MAX,
    ensures
        msg is None,
        final(m).page() == old(m).page_after(event),
        final(m).same_but_page(old(m)),
        old(m).wf() ==> final(m).wf(),
{
    if m.use_left_right_keys {
        match event {
            Key::Left => m.prev_page(),
            Key::Right => m.next_page(),
            _ => {
                return None;
            },
        }
    }
    if m.use_up_down_keys {
        match event {
            Key::Up => m.prev_page(),
            Key::Down => m.next_page(),
            _ => {
                return None;
            },
        }
    }
    if m.use_h_l_keys {
        match event {
            Key::Char('h') => m.prev_page(),
            Key::Char('l') => m.next_page(),
            _ => {
                return None;
            },
        }
    }
    if m.use_j_k_keys {
        match event {
            Key::Char('j') => m.prev_page(),
            Key::Char('k') => m.next_page(),
            _ => {
                return None;
            },
        }
    }
    None
}

/// What the paginator shows.
pub open spec fn shown(model: &Model) -> Seq<char> {
    match model.shown_as() {
        PaginatorType::Dots => dots(
            model.total_pages(),
            model.page(),
            model.active_dot(),
            model.inactive_dot(),
        ),
        PaginatorType::Arabic => decimal(model.page() + 1) + seq!['/'] + decimal(
            model.total_pages(),
        ),
    }
}

/// Renders the pagination: a row of dots, or `page/pages`.
pub fn view(model: &Model) -> (text: String)
    requires
        model.page() < i32::MAX,
    ensures
        text@ == shown(model),
{
    match &model.paginator_type {
        PaginatorType::Dots => dots_view(model),
        _ => arabic_view(model),
    }
}

/// The row of dots, one for each page, the current page's dot set off.
pub fn dots_view(model: &Model) -> (text: String)
    ensures
        text@ == dots(
            model.total_pages(),
            model.page(),
            model.active_dot(),
            model.inactive_dot(),
        ),
{
    let mut s = String::new();
    let mut i: i32 = 0;
    while i < model.total_pages
        invariant
            0 <= i,
            i <= model.total_pages || (model.total_pages < 0 && i == 0),
            s@ == dots(i as int, model.page(), model.active_dot(), model.inactive_dot()),
        decreases model.total_pages - i,
    {
        if i == model.page {
            s.append(model.active_dot.as_str());
        } else {
            s.append(model.inactive_dot.as_str());
        }
        i = i + 1;
    }
    proof {
        if model.total_pages < 0 {
            assert(i == 0);
            assert(dots(0, model.page(), model.active_dot(), model.inactive_dot())
                =~= Seq::<char>::empty());
        }
    }
    s
}

/// The current page, counted from 1, a slash, and the number of pages.
pub fn arabic_view(model: &Model) -> (text: String)
    requires
        model.page() < i32::MAX,
    ensures
        text@ == decimal(model.page() + 1) + seq!['/'] + decimal(model.total_pages()),
{
    let mut text = String::new();
    push_decimal(&mut text, model.page + 1);
    push_char(&mut text, '/');
    push_decimal(&mut text, model.total_pages);
    assert(text@ =~= decimal(model.page() + 1) + seq!['/'] + decimal(model.total_pages()));
    text
}

} // verus!
