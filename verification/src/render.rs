//! What the chat shows: the text of an item, the rows of buttons under a
//! message, and the pages in which the images of an item are sent.

use crate::context::AppContext;
use crate::models::CategoryRow;
use crate::models::CategoryView;
use crate::models::ItemRow;
use crate::models::ItemView;
use crate::money::cents_text;
use crate::money::format_cents;
use crate::money::push_cents;
use crate::text::int_text;
use crate::text::nat_text;
use crate::text::push_int;
use crate::text::push_nat;
use crate::text::trim_str;
use crate::text::trimmed;
use vstd::prelude::*;
use vstd::string::StrSliceExecFns;
use vstd::string::StringExecFns;

verus! {

/// Whether `c` is one of the characters that MarkdownV2 reserves.
pub open spec fn is_markdown_special(c: char) -> bool {
    c == '\\' || c == '_' || c == '*' || c == '[' || c == ']' || c == '(' || c == ')' || c == '~'
        || c == '`' || c == '>' || c == '#' || c == '+' || c == '-' || c == '=' || c == '|'
        || c == '{' || c == '}' || c == '.' || c == '!'
}

/// The text with a backslash put before every reserved character.
pub open spec fn escaped(s: Seq<char>) -> Seq<char>
    decreases s.len(),
{
    if s.len() == 0 {
        s
    } else if is_markdown_special(s.last()) {
        escaped(s.drop_last()).push('\\').push(s.last())
    } else {
        escaped(s.drop_last()).push(s.last())
    }
}

/// Calls `teloxide::utils::markdown::escape`, which walks the characters of
/// `s` in order and copies each one, preceded by a backslash where it is
/// one of the nineteen characters that MarkdownV2 reserves.
#[verifier::external_body]
fn markdown_escape(s: &str) -> (r: String)
    ensures
        r@ == escaped(s@),
{
    teloxide::utils::markdown::escape(s)
}

/// Calls `teloxide::utils::markdown::bold`, which puts an asterisk before
/// and after `s` and escapes nothing.
#[verifier::external_body]
fn markdown_bold(s: &str) -> (r: String)
    ensures
        r@ == "*"@ + s@ + "*"@,
{
    teloxide::utils::markdown::bold(s)
}

/// A button under a message: what it shows, and the payload it sends when
/// it is pressed.
#[derive(Debug, Clone, PartialEq, Eq)]
pub struct Button {
    pub label: String,
    pub data: String,
}

/// [`Button`] as contracts speak of it: every text is the sequence of its
/// characters.
pub struct ButtonView {
    pub label: Seq<char>,
    pub data: Seq<char>,
}

impl View for Button {
    type V = ButtonView;

    open spec fn view(&self) -> ButtonView {
        ButtonView { label: self.label@, data: self.data@ }
    }
}

impl DeepView for Button {
    type V = ButtonView;

    open spec fn deep_view(&self) -> ButtonView {
        self@
    }
}

/// The rows of buttons under a message.
#[derive(Debug, Clone, PartialEq, Eq)]
pub struct Keyboard {
    pub inline_keyboard: Vec<Vec<Button>>,
}

impl View for Keyboard {
    type V = Seq<Seq<ButtonView>>;

    open spec fn view(&self) -> Seq<Seq<ButtonView>> {
        self.inline_keyboard.deep_view()
    }
}

/// A button with a fixed payload.
pub open spec fn plain_button(label: Seq<char>, data: Seq<char>) -> ButtonView {
    ButtonView { label, data }
}

/// A button whose payload is a prefix and an identifier.
pub open spec fn id_button(label: Seq<char>, prefix: Seq<char>, id: i64) -> ButtonView {
    ButtonView { label, data: prefix + int_text(id as int) }
}

fn make_button(label: &str, data: &str) -> (r: Button)
    ensures
        r@ == plain_button(label@, data@),
{
    Button { label: String::from_str(label), data: String::from_str(data) }
}

fn make_id_button(label: &str, prefix: &str, id: i64) -> (r: Button)
    ensures
        r@ == id_button(label@, prefix@, id),
{
    let mut data = String::from_str(prefix);
    push_int(&mut data, id);
    Button { label: String::from_str(label), data }
}

fn row_of_one(a: Button) -> (r: Vec<Button>)
    ensures
        r.deep_view() == seq![a@],
{
    let mut row: Vec<Button> = Vec::new();
    row.push(a);
    assert(row.deep_view() =~= seq![a@]);
    row
}

fn row_of_two(a: Button, b: Button) -> (r: Vec<Button>)
    ensures
        r.deep_view() == seq![a@, b@],
{
    let mut row: Vec<Button> = Vec::new();
    row.push(a);
    row.push(b);
    assert(row.deep_view() =~= seq![a@, b@]);
    row
}

fn push_row(rows: &mut Vec<Vec<Button>>, row: Vec<Button>)
    ensures
        final(rows).deep_view() == old(rows).deep_view().push(row.deep_view()),
{
    rows.push(row);
    assert(rows.deep_view() =~= old(rows).deep_view().push(row.deep_view()));
}

/// The button that leads back to the main menu.
pub open spec fn main_menu_button() -> ButtonView {
    plain_button("⬅️ Main menu"@, "menu:root"@)
}

/// The rows of the main menu; the admin panel is offered to admins only.
pub open spec fn main_menu_rows(is_admin: bool) -> Seq<Seq<ButtonView>> {
    let rows = seq![
        seq![plain_button("🗂️ Catalogue"@, "menu:catalogue"@)],
        seq![
            plain_button("🪙 My bids"@, "menu:my_bids"@),
            plain_button("⭐ My favorites"@, "menu:favorites"@),
        ],
        seq![plain_button("⚙️ My settings"@, "menu:settings"@)],
    ];
    if is_admin {
        rows.push(seq![plain_button("🛡️ Admin panel"@, "menu:admin"@)])
    } else {
        rows
    }
}

/// The main menu as `user_id` sees it.
pub fn main_menu_keyboard(ctx: &AppContext, user_id: i64) -> (r: Keyboard)
    ensures
        r@ == main_menu_rows(ctx.admin_set().contains(user_id)),
{
    let mut rows: Vec<Vec<Button>> = Vec::new();
    assert(rows.deep_view() =~= Seq::<Seq<ButtonView>>::empty());
    push_row(&mut rows, row_of_one(make_button("🗂️ Catalogue", "menu:catalogue")));
    push_row(
        &mut rows,
        row_of_two(
            make_button("🪙 My bids", "menu:my_bids"),
            make_button("⭐ My favorites", "menu:favorites"),
        ),
    );
    push_row(&mut rows, row_of_one(make_button("⚙️ My settings", "menu:settings")));
    if ctx.is_admin(user_id) {
        push_row(&mut rows, row_of_one(make_button("🛡️ Admin panel", "menu:admin")));
    }
    assert(rows.deep_view() =~= main_menu_rows(ctx.admin_set().contains(user_id)));
    Keyboard { inline_keyboard: rows }
}

/// The rows of the admin panel.
pub open spec fn admin_menu_rows() -> Seq<Seq<ButtonView>> {
    seq![
        seq![
            plain_button("🆕 Add category"@, "admin:add_category"@),
            plain_button("📦 Add item"@, "admin:add_item"@),
        ],
        seq![
            plain_button("🗑 Remove item"@, "admin:remove_item"@),
            plain_button("🗑 Remove category"@, "admin:remove_category"@),
        ],
        seq![
            plain_button("🛑 Close item"@, "admin:close_item"@),
            plain_button("📢 Broadcast"@, "admin:broadcast"@),
        ],
        seq![plain_button("🔔 Notify new lots"@, "admin:notify_new"@)],
        seq![main_menu_button()],
    ]
}

/// The admin panel.
pub fn admin_menu_keyboard() -> (r: Keyboard)
    ensures
        r@ == admin_menu_rows(),
{
    let mut rows: Vec<Vec<Button>> = Vec::new();
    assert(rows.deep_view() =~= Seq::<Seq<ButtonView>>::empty());
    push_row(
        &mut rows,
        row_of_two(
            make_button("🆕 Add category", "admin:add_category"),
            make_button("📦 Add item", "admin:add_item"),
        ),
    );
    push_row(
        &mut rows,
        row_of_two(
            make_button("🗑 Remove item", "admin:remove_item"),
            make_button("🗑 Remove category", "admin:remove_category"),
        ),
    );
    push_row(
        &mut rows,
        row_of_two(
            make_button("🛑 Close item", "admin:close_item"),
            make_button("📢 Broadcast", "admin:broadcast"),
        ),
    );
    push_row(&mut rows, row_of_one(make_button("🔔 Notify new lots", "admin:notify_new")));
    push_row(&mut rows, row_of_one(make_button("⬅️ Main menu", "menu:root")));
    assert(rows.deep_view() =~= admin_menu_rows());
    Keyboard { inline_keyboard: rows }
}

/// A keyboard that only leads back to the main menu.
pub fn main_menu_only_keyboard() -> (r: Keyboard)
    ensures
        r@ == seq![seq![main_menu_button()]],
{
    let mut rows: Vec<Vec<Button>> = Vec::new();
    assert(rows.deep_view() =~= Seq::<Seq<ButtonView>>::empty());
    push_row(&mut rows, row_of_one(make_button("⬅️ Main menu", "menu:root")));
    assert(rows.deep_view() =~= seq![seq![main_menu_button()]]);
    Keyboard { inline_keyboard: rows }
}

/// The rows of the settings screen: the switch offers the opposite of the
/// present setting.
pub open spec fn settings_menu_rows(notifications_disabled: bool) -> Seq<Seq<ButtonView>> {
    seq![
        seq![
            plain_button(
                if notifications_disabled {
                    "🔔 Enable updates"@
                } else {
                    "🔕 Mute updates"@
                },
                "settings:toggle_notifications"@,
            ),
        ],
        seq![main_menu_button()],
    ]
}

/// The settings screen.
pub fn settings_menu_keyboard(notifications_disabled: bool) -> (r: Keyboard)
    ensures
        r@ == settings_menu_rows(notifications_disabled),
{
    let toggle_label = if notifications_disabled {
        "🔔 Enable updates"
    } else {
        "🔕 Mute updates"
    };
    let mut rows: Vec<Vec<Button>> = Vec::new();
    assert(rows.deep_view() =~= Seq::<Seq<ButtonView>>::empty());
    push_row(
        &mut rows,
        row_of_one(make_button(toggle_label, "settings:toggle_notifications")),
    );
    push_row(&mut rows, row_of_one(make_button("⬅️ Main menu", "menu:root")));
    assert(rows.deep_view() =~= settings_menu_rows(notifications_disabled));
    Keyboard { inline_keyboard: rows }
}

/// The text of the settings screen.
pub open spec fn settings_text(notifications_disabled: bool) -> Seq<char> {
    "⚙️ Settings\n\n"@ + (if notifications_disabled {
        "🔕 Notifications are OFF"@
    } else {
        "🔔 Notifications are ON"@
    }) + "\nToggle below to control auction updates."@
}

/// Writes the text of the settings screen.
pub fn settings_message(notifications_disabled: bool) -> (r: String)
    ensures
        r@ == settings_text(notifications_disabled),
{
    let mut out = String::from_str("⚙️ Settings\n\n");
    if notifications_disabled {
        out.append("🔕 Notifications are OFF");
    } else {
        out.append("🔔 Notifications are ON");
    }
    out.append("\nToggle below to control auction updates.");
    out
}

/// The rows that offer `categories`, two to a row, each button sending
/// `prefix` and the number of its category.
pub open spec fn category_rows(categories: Seq<CategoryView>, prefix: Seq<char>) -> Seq<
    Seq<ButtonView>,
>
    decreases categories.len(),
{
    if categories.len() == 0 {
        Seq::empty()
    } else if categories.len() % 2 == 1 {
        category_rows(categories.drop_last(), prefix).push(
            seq![id_button(categories.last().name, prefix, categories.last().id)],
        )
    } else {
        let earlier = category_rows(categories.drop_last(), prefix);
        earlier.drop_last().push(
            earlier.last().push(id_button(categories.last().name, prefix, categories.last().id)),
        )
    }
}

/// Every row that `category_rows` lays out is there.
proof fn lemma_category_rows_len(categories: Seq<CategoryView>, prefix: Seq<char>)
    ensures
        category_rows(categories, prefix).len() == (categories.len() + 1) / 2,
    decreases categories.len(),
{
    if categories.len() > 0 {
        lemma_category_rows_len(categories.drop_last(), prefix);
    }
}

fn build_category_rows(categories: &Vec<CategoryRow>, prefix: &str) -> (r: Vec<Vec<Button>>)
    ensures
        r.deep_view() == category_rows(categories.deep_view(), prefix@),
{
    let mut rows: Vec<Vec<Button>> = Vec::new();
    let mut i: usize = 0;
    let ghost all = categories.deep_view();
    assert(rows.deep_view() =~= category_rows(all.subrange(0, 0), prefix@));
    while i < categories.len()
        invariant
            i <= categories@.len(),
            all == categories.deep_view(),
            rows.deep_view() == category_rows(all.subrange(0, i as int), prefix@),
        decreases categories@.len() - i,
    {
        let category = &categories[i];
        let button = make_id_button(category.name.as_str(), prefix, category.id);
        proof {
            let longer = all.subrange(0, i as int + 1);
            assert(longer.drop_last() == all.subrange(0, i as int));
            assert(longer.last() == category@);
            lemma_category_rows_len(all.subrange(0, i as int), prefix@);
        }
        let ghost before = rows.deep_view();
        if i % 2 == 0 {
            push_row(&mut rows, row_of_one(button));
        } else {
            let mut row = match rows.pop() {
                Some(row) => row,
                None => Vec::new(),
            };
            assert(rows.deep_view() =~= before.drop_last());
            assert(row.deep_view() == before.last());
            let ghost half = row.deep_view();
            row.push(button);
            assert(row.deep_view() =~= half.push(button@));
            push_row(&mut rows, row);
        }
        i = i + 1;
    }
    assert(all.subrange(0, i as int) == all);
    rows
}

/// The rows of the category picker of an item draft.
pub open spec fn category_picker_rows(categories: Seq<CategoryView>) -> Seq<Seq<ButtonView>> {
    category_rows(categories, "pickcat:"@).push(
        seq![plain_button("➕ New category"@, "pickcat:new"@), main_menu_button()],
    )
}

/// The category picker of an item draft.
pub fn build_category_picker_keyboard(categories: &Vec<CategoryRow>) -> (r: Keyboard)
    ensures
        r@ == category_picker_rows(categories.deep_view()),
{
    let mut rows = build_category_rows(categories, "pickcat:");
    push_row(
        &mut rows,
        row_of_two(
            make_button("➕ New category", "pickcat:new"),
            make_button("⬅️ Main menu", "menu:root"),
        ),
    );
    Keyboard { inline_keyboard: rows }
}

/// The rows of the catalogue.
pub open spec fn categories_rows(categories: Seq<CategoryView>) -> Seq<Seq<ButtonView>> {
    category_rows(categories, "cat:"@).push(seq![main_menu_button()])
}

/// The catalogue: one button for each category.
pub fn build_categories_keyboard(categories: &Vec<CategoryRow>) -> (r: Keyboard)
    ensures
        r@ == categories_rows(categories.deep_view()),
{
    let mut rows = build_category_rows(categories, "cat:");
    push_row(&mut rows, row_of_one(make_button("⬅️ Main menu", "menu:root")));
    Keyboard { inline_keyboard: rows }
}

/// The text above the category picker.
pub open spec fn category_picker_text(any_category: bool) -> Seq<char> {
    if any_category {
        "🗂️ Choose a category \\(or tap "@ + ("*"@ + "➕ New category"@ + "*"@) + "\\):"@
    } else {
        "🗂️ No categories yet.\nSend a new category name, or /cancel to stop."@
    }
}

/// Writes the text above the category picker; with categories to choose
/// from it is MarkdownV2.
pub fn category_picker_message(any_category: bool) -> (r: String)
    ensures
        r@ == category_picker_text(any_category),
{
    if any_category {
        let mut out = String::from_str("🗂️ Choose a category \\(or tap ");
        let bold = markdown_bold("➕ New category");
        out.append(bold.as_str());
        out.append("\\):");
        out
    } else {
        String::from_str("🗂️ No categories yet.\nSend a new category name, or /cancel to stop.")
    }
}

/// The text above the catalogue.
pub open spec fn categories_text(any_category: bool) -> Seq<char> {
    if any_category {
        "🗂️ Choose a category:"@
    } else {
        "🗂️ No categories yet. Check back soon."@
    }
}

/// Writes the text above the catalogue.
pub fn categories_message(any_category: bool) -> (r: String)
    ensures
        r@ == categories_text(any_category),
{
    if any_category {
        String::from_str("🗂️ Choose a category:")
    } else {
        String::from_str("🗂️ No categories yet. Check back soon.")
    }
}

/// The text above the items of a category.
pub open spec fn category_items_text(category_name: Seq<char>, any_item: bool) -> Seq<char> {
    "🗂️ Category: "@ + category_name + if any_item {
        "\n🛍️ Select an item:"@
    } else {
        "\n📭 No items in this category yet."@
    }
}

/// Writes the text above the items of a category.
pub fn category_items_message(category_name: &str, any_item: bool) -> (r: String)
    ensures
        r@ == category_items_text(category_name@, any_item),
{
    let mut out = String::from_str("🗂️ Category: ");
    out.append(category_name);
    if any_item {
        out.append("\n🛍️ Select an item:");
    } else {
        out.append("\n📭 No items in this category yet.");
    }
    out
}

/// A text cut down to `max_chars` characters: where it is longer, its end
/// gives way to three dots.
pub open spec fn truncated(text: Seq<char>, max_chars: nat) -> Seq<char> {
    if text.len() <= max_chars {
        text
    } else if max_chars <= 3 {
        "..."@
    } else {
        text.subrange(0, max_chars - 3) + "..."@
    }
}

/// Cuts the text of a button down to `max_chars` characters.
pub fn truncate_button_text(text: &str, max_chars: usize) -> (r: String)
    ensures
        r@ == truncated(text@, max_chars as nat),
{
    if text.unicode_len() <= max_chars {
        return String::from_str(text);
    }
    if max_chars <= 3 {
        return String::from_str("...");
    }
    let mut out = String::from_str(text.substring_char(0, max_chars - 3));
    out.append("...");
    out
}

/// An item as the list of a category shows it: the item, and its best bid
/// if it has one.
pub open spec fn item_label(item: ItemView, best: Option<i64>) -> Seq<char> {
    truncated(
        (if item.is_open {
            Seq::<char>::empty()
        } else {
            "🔴 "@
        }) + cents_text(
            (match best {
                Some(amount) => amount,
                None => item.start_price,
            }) as int,
        ) + " — "@ + item.title,
        48,
    )
}

/// The rows for those of `entries` that are open, or for those that are
/// closed, in their order.
pub open spec fn item_rows(entries: Seq<(ItemView, Option<i64>)>, open: bool) -> Seq<
    Seq<ButtonView>,
>
    decreases entries.len(),
{
    if entries.len() == 0 {
        Seq::empty()
    } else {
        let earlier = item_rows(entries.drop_last(), open);
        let (item, best) = entries.last();
        if item.is_open == open {
            earlier.push(seq![id_button(item_label(item, best), "item:"@, item.id)])
        } else {
            earlier
        }
    }
}

/// The rows of the list of a category: the open items first, then the
/// closed ones, each group in the order given, and the way back last.
pub open spec fn items_rows(entries: Seq<(ItemView, Option<i64>)>) -> Seq<Seq<ButtonView>> {
    (item_rows(entries, true) + item_rows(entries, false)).push(
        seq![plain_button("⬅️ Categories"@, "back:categories"@), main_menu_button()],
    )
}

pub open spec fn entries_view(entries: Seq<(ItemRow, Option<i64>)>) -> Seq<(ItemView, Option<i64>)> {
    Seq::new(entries.len(), |i: int| (entries[i].0@, entries[i].1))
}

fn push_item_rows(rows: &mut Vec<Vec<Button>>, entries: &Vec<(ItemRow, Option<i64>)>, open: bool)
    ensures
        final(rows).deep_view() == old(rows).deep_view() + item_rows(entries_view(entries@), open),
{
    let ghost all = entries_view(entries@);
    let ghost start = rows.deep_view();
    let mut i: usize = 0;
    assert(rows.deep_view() =~= start + item_rows(all.subrange(0, 0), open));
    while i < entries.len()
        invariant
            i <= entries@.len(),
            all == entries_view(entries@),
            rows.deep_view() == start + item_rows(all.subrange(0, i as int), open),
        decreases entries@.len() - i,
    {
        let item = &entries[i].0;
        let best = entries[i].1;
        proof {
            let longer = all.subrange(0, i as int + 1);
            assert(longer.drop_last() == all.subrange(0, i as int));
            assert(longer.last() == (item@, best));
        }
        if item.is_open == open {
            let mut label = String::new();
            if !item.is_open {
                label.append("🔴 ");
            }
            let price = match best {
                Some(amount) => amount,
                None => item.start_price,
            };
            push_cents(&mut label, price);
            label.append(" — ");
            label.append(item.title.as_str());
            let ghost full = (if item@.is_open {
                Seq::<char>::empty()
            } else {
                "🔴 "@
            }) + cents_text(price as int) + " — "@ + item@.title;
            assert(label@ =~= full);
            let label = truncate_button_text(label.as_str(), 48);
            let button = make_id_button(label.as_str(), "item:", item.id);
            push_row(rows, row_of_one(button));
            assert(rows.deep_view() =~= start + item_rows(all.subrange(0, i as int + 1), open));
        }
        i = i + 1;
    }
    assert(all.subrange(0, i as int) == all);
}

/// The list of a category. Each entry is an item with its best bid.
pub fn build_items_keyboard(entries: &Vec<(ItemRow, Option<i64>)>) -> (r: Keyboard)
    ensures
        r@ == items_rows(entries_view(entries@)),
{
    let mut rows: Vec<Vec<Button>> = Vec::new();
    assert(rows.deep_view() =~= Seq::<Seq<ButtonView>>::empty());
    push_item_rows(&mut rows, entries, true);
    push_item_rows(&mut rows, entries, false);
    push_row(
        &mut rows,
        row_of_two(
            make_button("⬅️ Categories", "back:categories"),
            make_button("⬅️ Main menu", "menu:root"),
        ),
    );
    assert(rows.deep_view() =~= items_rows(entries_view(entries@)));
    Keyboard { inline_keyboard: rows }
}

/// What an item means to the one who looks at it.
#[derive(Debug, Clone, Copy, PartialEq, Eq)]
pub struct ItemViewerContext {
    pub is_favorite: bool,
    pub user_best_bid: Option<i64>,
}

/// The buttons under an item: bidding while it is open, and for a known
/// viewer the switch of the favourite. Without any button there is no row.
pub open spec fn item_action_rows(item_id: i64, open: bool, viewer: Option<ItemViewerContext>)
    -> Seq<Seq<ButtonView>> {
    let bid = if open {
        seq![id_button("💸 Place bid"@, "bid:"@, item_id)]
    } else {
        Seq::empty()
    };
    let row = match viewer {
        Some(context) => bid.push(
            if context.is_favorite {
                id_button("❌ Remove favorite"@, "fav:remove:"@, item_id)
            } else {
                id_button("⭐ Add favorite"@, "fav:add:"@, item_id)
            },
        ),
        None => bid,
    };
    if row.len() == 0 {
        Seq::empty()
    } else {
        seq![row]
    }
}

/// The buttons under an item.
pub fn item_action_keyboard(item_id: i64, open: bool, viewer: Option<&ItemViewerContext>) -> (r:
    Keyboard)
    ensures
        r@ == item_action_rows(
            item_id,
            open,
            match viewer {
                Some(context) => Some(*context),
                None => None,
            },
        ),
{
    let mut row: Vec<Button> = Vec::new();
    assert(row.deep_view() =~= Seq::<ButtonView>::empty());
    if open {
        let ghost before = row.deep_view();
        let button = make_id_button("💸 Place bid", "bid:", item_id);
        row.push(button);
        assert(row.deep_view() =~= before.push(button@));
    }
    match viewer {
        Some(context) => {
            let button = if context.is_favorite {
                make_id_button("❌ Remove favorite", "fav:remove:", item_id)
            } else {
                make_id_button("⭐ Add favorite", "fav:add:", item_id)
            };
            let ghost before = row.deep_view();
            row.push(button);
            assert(row.deep_view() =~= before.push(button@));
        },
        None => {},
    }
    let mut rows: Vec<Vec<Button>> = Vec::new();
    assert(rows.deep_view() =~= Seq::<Seq<ButtonView>>::empty());
    if row.len() > 0 {
        push_row(&mut rows, row);
    }
    let r = Keyboard { inline_keyboard: rows };
    assert(r@ =~= item_action_rows(
        item_id,
        open,
        match viewer {
            Some(context) => Some(*context),
            None => None,
        },
    ));
    r
}

/// The description of an item as its message shows it: left out where it
/// is missing or blank.
pub open spec fn description_part(description: Option<Seq<char>>) -> Seq<char> {
    match description {
        Some(d) => if trimmed(d).len() > 0 {
            "\n\n"@ + escaped(d)
        } else {
            Seq::empty()
        },
        None => Seq::empty(),
    }
}

/// The lines that an item shows to a known viewer: their own best bid, and
/// that they saved it.
pub open spec fn viewer_part(viewer: Option<ItemViewerContext>) -> Seq<char> {
    match viewer {
        Some(context) => (match context.user_best_bid {
            Some(bid) => "\n"@ + escaped("🎯 Your top bid: "@ + cents_text(bid as int)),
            None => Seq::empty(),
        }) + (if context.is_favorite {
            "\n"@ + escaped("⭐ Saved to favorites"@)
        } else {
            Seq::empty()
        }),
        None => Seq::empty(),
    }
}

/// The line of the best bid, where there is one.
pub open spec fn best_part(best: Option<i64>) -> Seq<char> {
    match best {
        Some(amount) => "\n🏆 Current best: "@ + escaped(cents_text(amount as int)),
        None => Seq::empty(),
    }
}

/// The last lines of an item: that it is newly listed, and whether it is
/// open.
pub open spec fn status_part(is_new: bool, is_open: bool) -> Seq<char> {
    (if is_new {
        "\n"@ + escaped("🆕 Newly listed"@)
    } else {
        Seq::empty()
    }) + "\n📦 Status: "@ + if is_open {
        "OPEN"@
    } else {
        "CLOSED"@
    }
}

/// The message that presents an item, in MarkdownV2: number and title, the
/// description, the start price, the best bid if there is one, what the
/// viewer has to do with the item, whether it is newly listed, and whether
/// it is open.
pub open spec fn item_message_text(
    item: ItemView,
    best: Option<i64>,
    viewer: Option<ItemViewerContext>,
) -> Seq<char> {
    "🔨 *"@ + escaped("#"@ + int_text(item.id as int)) + "* — *"@ + escaped(item.title) + "*"@
        + description_part(item.description) + "\n\n💰 Start: "@ + escaped(
        cents_text(item.start_price as int),
    ) + best_part(best) + viewer_part(viewer) + status_part(item.is_new, item.is_open)
}

fn push_escaped(out: &mut String, s: &str)
    ensures
        final(out)@ == old(out)@ + escaped(s@),
{
    let e = markdown_escape(s);
    out.append(e.as_str());
}

fn push_description(out: &mut String, description: &Option<String>)
    ensures
        final(out)@ == old(out)@ + description_part(description.deep_view()),
{
    match description {
        Some(d) => {
            if !trim_str(d.as_str()).is_empty() {
                out.append("\n\n");
                push_escaped(out, d.as_str());
                assert(out@ =~= old(out)@ + ("\n\n"@ + escaped(d@)));
            } else {
                assert(out@ =~= old(out)@ + Seq::<char>::empty());
            }
        },
        None => {
            assert(out@ =~= old(out)@ + Seq::<char>::empty());
        },
    }
}

fn push_best(out: &mut String, best: Option<i64>)
    ensures
        final(out)@ == old(out)@ + best_part(best),
{
    match best {
        Some(amount) => {
            out.append("\n🏆 Current best: ");
            let text = format_cents(amount);
            push_escaped(out, text.as_str());
            assert(out@ =~= old(out)@ + best_part(best));
        },
        None => {
            assert(out@ =~= old(out)@ + Seq::<char>::empty());
        },
    }
}

fn push_viewer(out: &mut String, viewer: Option<&ItemViewerContext>)
    ensures
        final(out)@ == old(out)@ + viewer_part(
            match viewer {
                Some(context) => Some(*context),
                None => None,
            },
        ),
{
    match viewer {
        Some(context) => {
            match context.user_best_bid {
                Some(bid) => {
                    let mut line = String::from_str("🎯 Your top bid: ");
                    push_cents(&mut line, bid);
                    out.append("\n");
                    push_escaped(out, line.as_str());
                },
                None => {},
            }
            if context.is_favorite {
                out.append("\n");
                push_escaped(out, "⭐ Saved to favorites");
            }
            assert(out@ =~= old(out)@ + viewer_part(Some(*context)));
        },
        None => {
            assert(out@ =~= old(out)@ + Seq::<char>::empty());
        },
    }
}

fn push_status(out: &mut String, is_new: bool, is_open: bool)
    ensures
        final(out)@ == old(out)@ + status_part(is_new, is_open),
{
    if is_new {
        out.append("\n");
        push_escaped(out, "🆕 Newly listed");
    }
    out.append("\n📦 Status: ");
    if is_open {
        out.append("OPEN");
    } else {
        out.append("CLOSED");
    }
    assert(out@ =~= old(out)@ + status_part(is_new, is_open));
}

/// Writes the message that presents an item.
pub fn render_item_message(item: &ItemRow, best: Option<i64>, viewer: Option<&ItemViewerContext>)
    -> (r: String)
    ensures
        r@ == item_message_text(
            item@,
            best,
            match viewer {
                Some(context) => Some(*context),
                None => None,
            },
        ),
{
    let mut out = String::from_str("🔨 *");
    let mut number = String::from_str("#");
    push_int(&mut number, item.id);
    push_escaped(&mut out, number.as_str());
    out.append("* — *");
    push_escaped(&mut out, item.title.as_str());
    out.append("*");
    push_description(&mut out, &item.description);
    out.append("\n\n💰 Start: ");
    let start = format_cents(item.start_price);
    push_escaped(&mut out, start.as_str());
    push_best(&mut out, best);
    push_viewer(&mut out, viewer);
    push_status(&mut out, item.is_new, item.is_open);
    out
}

/// The most images that go out in one group.
pub const MEDIA_GROUP_BATCH: usize = 10;

/// Where the page of images that begins at `start` ends: ten images on, or
/// at the last image. A start beyond the images is its own end.
pub open spec fn chunk_end(start: nat, total: nat) -> nat {
    if start >= total {
        start
    } else if start + 10 <= total {
        start + 10
    } else {
        total
    }
}

/// Where the page of images that begins at `start` ends.
pub fn send_item_images_chunk(start: usize, total: usize) -> (end: usize)
    ensures
        end == chunk_end(start as nat, total as nat),
{
    if start >= total {
        start
    } else if total - start >= MEDIA_GROUP_BATCH {
        start + MEDIA_GROUP_BATCH
    } else {
        total
    }
}

/// The images of an item: its list, or, where the list is empty, the cover
/// it was created with.
pub open spec fn images_or_cover(images: Seq<Seq<char>>, cover: Option<Seq<char>>) -> Seq<
    Seq<char>,
> {
    if images.len() == 0 && cover is Some {
        seq![cover->0]
    } else {
        images
    }
}

/// The images to show for an item.
pub fn item_images(images: Vec<String>, cover: Option<&String>) -> (r: Vec<String>)
    ensures
        r.deep_view() == images_or_cover(images.deep_view(), cover.deep_view()),
{
    if images.len() == 0 {
        match cover {
            Some(id) => {
                let mut images = images;
                images.push(id.clone());
                assert(images.deep_view() =~= seq![id@]);
                images
            },
            None => images,
        }
    } else {
        images
    }
}

/// What one page of images leads to.
#[derive(Debug, Clone, Copy, PartialEq, Eq, Structural)]
pub enum ImagePage {
    /// The offset is at or beyond the last image: nothing is sent.
    AllShown,
    /// The images from `start` up to `end` are sent, after which
    /// `remaining` are left.
    Batch { start: usize, end: usize, remaining: usize },
}

/// The page of images that an offset asks for.
pub open spec fn image_page(total: nat, offset: nat) -> ImagePage {
    if offset >= total {
        ImagePage::AllShown
    } else {
        ImagePage::Batch {
            start: offset as usize,
            end: chunk_end(offset, total) as usize,
            remaining: (total - chunk_end(offset, total)) as usize,
        }
    }
}

/// Decides the page of images that an offset asks for.
pub fn plan_image_page(total: usize, offset: usize) -> (r: ImagePage)
    ensures
        r == image_page(total as nat, offset as nat),
{
    if offset >= total {
        ImagePage::AllShown
    } else {
        let end = send_item_images_chunk(offset, total);
        ImagePage::Batch { start: offset, end, remaining: total - end }
    }
}

/// The text that offers more images, or says that there are none left.
pub open spec fn more_images_text(remaining: nat) -> Seq<char> {
    if remaining == 0 {
        "📷 All images shown."@
    } else {
        "📷 "@ + nat_text(remaining) + " more photo(s) available."@
    }
}

/// The button that asks for the next page of images; none where no image
/// is left.
pub open spec fn more_images_rows(item_id: i64, next_offset: nat, remaining: nat) -> Seq<
    Seq<ButtonView>,
> {
    if remaining == 0 {
        Seq::empty()
    } else {
        seq![
            seq![
                ButtonView {
                    label: "Show more images ("@ + nat_text(remaining) + ")"@,
                    data: "img:"@ + int_text(item_id as int) + ":"@ + nat_text(next_offset),
                },
            ],
        ]
    }
}

/// What follows a page of images: the text and the button for the rest.
/// `total` counts the images of the item and `next_offset` those shown.
pub fn send_more_images_prompt(item_id: i64, next_offset: usize, total: usize) -> (r: (
    String,
    Keyboard,
))
    ensures
        r.0@ == more_images_text(
            if total >= next_offset {
                (total - next_offset) as nat
            } else {
                0
            },
        ),
        r.1@ == more_images_rows(
            item_id,
            next_offset as nat,
            if total >= next_offset {
                (total - next_offset) as nat
            } else {
                0
            },
        ),
{
    let remaining: usize = if total >= next_offset {
        total - next_offset
    } else {
        0
    };
    let mut rows: Vec<Vec<Button>> = Vec::new();
    assert(rows.deep_view() =~= Seq::<Seq<ButtonView>>::empty());
    if remaining == 0 {
        return (String::from_str("📷 All images shown."), Keyboard { inline_keyboard: rows });
    }
    let mut text = String::from_str("📷 ");
    push_nat(&mut text, remaining as u64);
    text.append(" more photo(s) available.");
    let mut label = String::from_str("Show more images (");
    push_nat(&mut label, remaining as u64);
    label.append(")");
    let mut data = String::from_str("img:");
    push_int(&mut data, item_id);
    data.append(":");
    push_nat(&mut data, next_offset as u64);
    let button = Button { label, data };
    assert(button@.label =~= "Show more images ("@ + nat_text(remaining as nat) + ")"@);
    assert(button@.data =~= "img:"@ + int_text(item_id as int) + ":"@ + nat_text(
        next_offset as nat,
    ));
    push_row(&mut rows, row_of_one(button));
    let keyboard = Keyboard { inline_keyboard: rows };
    assert(keyboard@ =~= more_images_rows(item_id, next_offset as nat, remaining as nat));
    (text, keyboard)
}

} // verus!
