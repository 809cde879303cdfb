//! The navigation state machine.
//!
//! The interface is in one of three tabs. In the topics tab one of two lists
//! takes the arrow keys, and a modal may lie over them. Every key press is one
//! call of [`App::on_key`], which changes the state and may ask for one
//! operation of the storage; the caller carries that out and tells how it went
//! with one call of [`App::complete`].

use crate::add::all_ok;
use crate::add::FIELDS;
use crate::form::submitted;
use crate::form::Form;
use crate::form::FormView;
use crate::form::NewItem;
use crate::form::NewItemView;
use crate::input::Key;
use crate::input::KeyInput;
use crate::item::decreased;
use crate::item::finished_once;
use crate::item::increased;
use crate::item::Item;
use crate::item::ItemView;
use crate::item::Topic;
use crate::item::TopicView;
use crate::validate::field_valid;
use vstd::prelude::*;

verus! {

/// The tabs of the interface.
#[derive(Clone, Copy, Debug, PartialEq, Eq, Structural)]
pub enum MenuItem {
    Home,
    /// The tab of the topics and their items.
    Instances,
    /// The tab of the form.
    Add,
}

impl From<MenuItem> for usize {
    /// The place of the tab in the menu, counted from 0.
    fn from(input: MenuItem) -> (index: usize) {
        match input {
            MenuItem::Home => 0,
            MenuItem::Instances => 1,
            MenuItem::Add => 2,
        }
    }
}

impl vstd::std_specs::convert::FromSpecImpl<MenuItem> for usize {
    open spec fn obeys_from_spec() -> bool {
        true
    }

    open spec fn from_spec(input: MenuItem) -> usize {
        match input {
            MenuItem::Home => 0,
            MenuItem::Instances => 1,
            MenuItem::Add => 2,
        }
    }
}

/// The two lists of the topics tab.
#[derive(Clone, Copy, Debug, PartialEq, Eq, Structural)]
pub enum ActiveBlock {
    /// The list of the topics.
    Event,
    /// The list of the items of the selected topic.
    InstanceBlock,
}

/// The modal that lies over the topics tab.
#[derive(Clone, Copy, Debug, PartialEq, Eq, Structural)]
pub enum ActivePopUp {
    /// The modal that changes the progress of an item.
    Update,
    /// The modal that asks whether to delete.
    Delete,
    /// No modal.
    Closed,
}

/// What a key press asks the caller to do.
pub enum Command {
    /// Nothing.
    Nothing,
    /// To restore the terminal and leave.
    Quit,
    /// To create the topic, unless there is one of that name, and the item.
    Insert(NewItem),
    /// To store the percentage and the counter of the item.
    Update(Item),
    /// To delete the item.
    DeleteItem(Item),
    /// To delete the topic with all its items.
    DeleteTopic(Topic),
}

/// The mathematical content of a [`Command`].
pub enum CommandView {
    Nothing,
    Quit,
    Insert(NewItemView),
    Update(ItemView),
    DeleteItem(ItemView),
    DeleteTopic(TopicView),
}

impl View for Command {
    type V = CommandView;

    open spec fn view(&self) -> CommandView {
        match *self {
            Command::Nothing => CommandView::Nothing,
            Command::Quit => CommandView::Quit,
            Command::Insert(item) => CommandView::Insert(item@),
            Command::Update(item) => CommandView::Update(item@),
            Command::DeleteItem(item) => CommandView::DeleteItem(item@),
            Command::DeleteTopic(topic) => CommandView::DeleteTopic(topic@),
        }
    }
}

/// How the operation went that a [`Command`] asked for.
#[derive(Clone, Copy, Debug, PartialEq, Eq, Structural)]
pub enum Reply {
    /// The topic and the item were created.
    Inserted,
    /// The progress of the item was stored.
    Updated,
    /// The item was deleted; the selected topic now has `items` items.
    ItemDeleted { items: usize },
    /// The topic was deleted; there are now `topics` topics.
    TopicDeleted { topics: usize },
    /// The operation failed, and nothing was stored.
    Failed,
}

/// The mathematical content of an [`App`].
pub struct AppView {
    pub active_menu_item: MenuItem,
    pub active_block: ActiveBlock,
    pub active_popup: ActivePopUp,
    /// The index of the selected topic, if one is selected.
    pub topic_selected: Option<nat>,
    /// The index of the selected item, if one is selected.
    pub item_selected: Option<nat>,
    /// The working copy of the selected item. The update modal changes it.
    pub selected_item: ItemView,
    /// The copy of the selected topic.
    pub selected_topic: TopicView,
    pub form: FormView,
}

impl AppView {
    /// What holds of every state: the form is well formed, the percentage of
    /// the working copy is in its range, a modal lies over the topics tab only,
    /// and the update modal over the list of the items only; and while the
    /// list of the items takes the arrow keys, an item is selected.
    pub open spec fn wf(self) -> bool {
        &&& self.form.wf()
        &&& self.selected_item.percentage <= 100
        &&& self.active_popup != ActivePopUp::Closed ==> self.active_menu_item
            == MenuItem::Instances
        &&& self.active_popup == ActivePopUp::Update ==> self.active_block
            == ActiveBlock::InstanceBlock
        &&& self.active_block == ActiveBlock::InstanceBlock ==> self.item_selected is Some
    }

    /// The index of the topic that counts as selected: the first one where none
    /// is selected.
    pub open spec fn topic_index(self) -> nat {
        match self.topic_selected {
            Some(i) => i,
            None => 0,
        }
    }
}

/// Whether `key` is a key that quits: Alt with `q`, or End.
pub open spec fn is_quit(key: KeyInput) -> bool {
    key.is_alt_chord('q') || key.key == Key::End
}

/// The tab that `key` switches to, if it is a key that switches tabs: Alt
/// with `h` for the home tab, Alt with `t` or Home for the topics, Alt with `a`
/// or Insert for the form.
pub open spec fn tab_of(key: KeyInput) -> Option<MenuItem> {
    if key.is_alt_chord('h') {
        Some(MenuItem::Home)
    } else if key.is_alt_chord('t') || key.key == Key::Home {
        Some(MenuItem::Instances)
    } else if key.is_alt_chord('a') || key.key == Key::Insert {
        Some(MenuItem::Add)
    } else {
        None
    }
}

/// The index below `selected` in a list of `len` entries, the first one
/// following the last. `len` is not 0.
pub open spec fn cycled_down(selected: nat, len: nat) -> nat {
    if selected + 1 >= len {
        0
    } else {
        selected + 1
    }
}

/// The index above `selected` in a list of `len` entries, the last one
/// following the first. An index beyond the list counts as the first.
/// `len` is not 0.
pub open spec fn cycled_up(selected: nat, len: nat) -> nat {
    if selected == 0 || selected >= len {
        (len - 1) as nat
    } else {
        (selected - 1) as nat
    }
}

/// The selection after the list has shrunk to `len` entries: none where the
/// list is empty, the last entry where the selection was beyond it.
pub open spec fn clamped(selected: Option<nat>, len: nat) -> Option<nat> {
    if len == 0 {
        None
    } else {
        match selected {
            Some(i) if i >= len => Some((len - 1) as nat),
            _ => selected,
        }
    }
}

/// Whether `selected` points into a list of `len` entries, or is none.
pub open spec fn in_bounds(selected: Option<nat>, len: nat) -> bool {
    match selected {
        Some(i) => i < len,
        None => true,
    }
}

/// The state after a key press in the topics tab, with `topics` topics and
/// `items` items of the selected topic at hand.
pub open spec fn topics_key(pre: AppView, key: Key, topics: nat, items: nat) -> AppView {
    match (pre.active_block, pre.active_popup, key) {
        (ActiveBlock::Event, ActivePopUp::Closed, Key::Down) => if topics > 0 {
            AppView { topic_selected: Some(cycled_down(pre.topic_index(), topics)), ..pre }
        } else {
            pre
        },
        (ActiveBlock::Event, ActivePopUp::Closed, Key::Up) => if topics > 0 {
            AppView { topic_selected: Some(cycled_up(pre.topic_index(), topics)), ..pre }
        } else {
            pre
        },
        (ActiveBlock::Event, ActivePopUp::Closed, Key::Right) => if items > 0 {
            AppView {
                active_block: ActiveBlock::InstanceBlock,
                item_selected: Some(0),
                ..pre
            }
        } else {
            pre
        },
        (ActiveBlock::InstanceBlock, ActivePopUp::Closed, Key::Down) => match pre.item_selected {
            Some(i) if items > 0 => AppView {
                item_selected: Some(cycled_down(i, items)),
                ..pre
            },
            _ => pre,
        },
        (ActiveBlock::InstanceBlock, ActivePopUp::Closed, Key::Up) => match pre.item_selected {
            Some(i) if items > 0 => AppView { item_selected: Some(cycled_up(i, items)), ..pre },
            _ => pre,
        },
        (ActiveBlock::InstanceBlock, ActivePopUp::Closed, Key::Left) => AppView {
            active_block: ActiveBlock::Event,
            topic_selected: Some(pre.topic_index()),
            ..pre
        },
        (ActiveBlock::InstanceBlock, ActivePopUp::Closed, Key::Enter) => AppView {
            active_popup: ActivePopUp::Update,
            ..pre
        },
        (_, ActivePopUp::Closed, Key::Delete) => AppView {
            active_popup: ActivePopUp::Delete,
            ..pre
        },
        (ActiveBlock::InstanceBlock, ActivePopUp::Update, Key::Right) => if pre.selected_item.can_increase() {
            AppView { selected_item: increased(pre.selected_item), ..pre }
        } else {
            pre
        },
        (ActiveBlock::InstanceBlock, ActivePopUp::Update, Key::Left) => AppView {
            selected_item: decreased(pre.selected_item),
            ..pre
        },
        (ActiveBlock::InstanceBlock, ActivePopUp::Update, Key::Tab) => if pre.selected_item.can_finish() {
            AppView { selected_item: finished_once(pre.selected_item), ..pre }
        } else {
            pre
        },
        (_, ActivePopUp::Update, Key::Esc) | (_, ActivePopUp::Delete, Key::Esc) => AppView {
            active_popup: ActivePopUp::Closed,
            ..pre
        },
        _ => pre,
    }
}

/// What a key press in the topics tab asks for: Enter in a modal asks for what
/// the modal is about, and nothing else asks for anything.
pub open spec fn topics_command(pre: AppView, key: Key) -> CommandView {
    match (pre.active_block, pre.active_popup, key) {
        (ActiveBlock::InstanceBlock, ActivePopUp::Update, Key::Enter) => CommandView::Update(
            pre.selected_item,
        ),
        (ActiveBlock::InstanceBlock, ActivePopUp::Delete, Key::Enter) => CommandView::DeleteItem(
            pre.selected_item,
        ),
        (ActiveBlock::Event, ActivePopUp::Delete, Key::Enter) => CommandView::DeleteTopic(
            pre.selected_topic,
        ),
        _ => CommandView::Nothing,
    }
}

/// Whether a key press in the tab of the form may lead from `pre` to `post`
/// and `command`.
///
/// Enter moves the focus on, and on the last field asks to create what the
/// form holds, where the form is ready, and does nothing where it is not. Esc
/// moves the focus back. Any other key goes to the focused field.
pub open spec fn add_key(pre: AppView, key: KeyInput, post: AppView, command: CommandView) -> bool {
    if pre.active_popup != ActivePopUp::Closed {
        post == pre && command == CommandView::Nothing
    } else if key.key == Key::Enter {
        if !pre.form.on_last() {
            &&& post == (AppView { form: pre.form.focused_on(pre.form.which + 1), ..pre })
            &&& command == CommandView::Nothing
        } else {
            &&& post == pre
            &&& command == (if pre.form.add_given_ok {
                CommandView::Insert(submitted(pre.form.fields))
            } else {
                CommandView::Nothing
            })
        }
    } else if key.key == Key::Esc {
        &&& post == (AppView {
            form: pre.form.focused_on(
                if pre.form.which == 0 {
                    0
                } else {
                    (pre.form.which - 1) as nat
                },
            ),
            ..pre
        })
        &&& command == CommandView::Nothing
    } else {
        &&& post == (AppView { form: post.form, ..pre })
        &&& pre.form.takes(key, post.form)
        &&& command == CommandView::Nothing
    }
}

/// Whether a key press may lead from `pre` to `post` and `command`, with
/// `topics` topics and `items` items of the selected topic at hand.
///
/// A key that quits does so in every state. A key that switches tabs does so
/// unless a modal is open. Any other key is for the tab that is open; the home
/// tab takes none.
pub open spec fn key_outcome(
    pre: AppView,
    key: KeyInput,
    topics: nat,
    items: nat,
    post: AppView,
    command: CommandView,
) -> bool {
    if is_quit(key) {
        post == pre && command == CommandView::Quit
    } else if pre.active_popup == ActivePopUp::Closed && tab_of(key) is Some {
        post == (AppView { active_menu_item: tab_of(key)->0, ..pre }) && command
            == CommandView::Nothing
    } else {
        match pre.active_menu_item {
            MenuItem::Home => post == pre && command == CommandView::Nothing,
            MenuItem::Instances => post == topics_key(pre, key.key, topics, items) && command
                == topics_command(pre, key.key),
            MenuItem::Add => add_key(pre, key, post, command),
        }
    }
}

/// Whether a reply may lead from `pre` to `post`.
///
/// A reply counts only in the state that asked for the operation; in any other
/// it changes nothing, and a failure never changes anything: the modal stays
/// open, and the form keeps its text. After an insertion the form is fresh.
/// After an update the modal is closed. After a deletion the modal is closed
/// and the selection is brought back into the list, or to none where the list
/// is empty; the list of the topics takes the arrow keys again where the last
/// item of a topic is gone.
pub open spec fn reply_outcome(pre: AppView, reply: Reply, post: AppView) -> bool {
    match reply {
        Reply::Inserted => if pre.active_menu_item == MenuItem::Add && pre.form.on_last()
            && pre.form.add_given_ok {
            post == (AppView { form: post.form, ..pre }) && post.form.is_fresh()
        } else {
            post == pre
        },
        Reply::Updated => if pre.active_popup == ActivePopUp::Update {
            post == (AppView { active_popup: ActivePopUp::Closed, ..pre })
        } else {
            post == pre
        },
        Reply::TopicDeleted { topics } => if pre.active_popup == ActivePopUp::Delete
            && pre.active_block == ActiveBlock::Event {
            post == (AppView {
                active_popup: ActivePopUp::Closed,
                topic_selected: clamped(pre.topic_selected, topics as nat),
                ..pre
            })
        } else {
            post == pre
        },
        Reply::ItemDeleted { items } => if pre.active_popup == ActivePopUp::Delete
            && pre.active_block == ActiveBlock::InstanceBlock {
            post == (AppView {
                active_popup: ActivePopUp::Closed,
                active_block: if items == 0 {
                    ActiveBlock::Event
                } else {
                    ActiveBlock::InstanceBlock
                },
                item_selected: clamped(pre.item_selected, items as nat),
                ..pre
            })
        } else {
            post == pre
        },
        Reply::Failed => post == pre,
    }
}

/// The topic that is shown as selected: the one at the selected index, the
/// first where none is selected; the default topic where there is none at
/// that index.
pub open spec fn picked_topic(topics: Seq<Topic>, selected: Option<nat>) -> TopicView {
    let index = match selected {
        Some(i) => i,
        None => 0,
    };
    if index < topics.len() {
        topics[index as int]@
    } else {
        TopicView { name: Seq::empty(), created: 0 }
    }
}

/// The item that is shown as selected: the one at the selected index; the
/// default item where none is selected or there is none at that index.
pub open spec fn picked_item(items: Seq<Item>, selected: Option<nat>) -> ItemView {
    match selected {
        Some(i) if i < items.len() => items[i as int]@,
        _ => ItemView {
            id: 0,
            name: Seq::empty(),
            topicname: Seq::empty(),
            isrecurring: false,
            percentage: 0,
            timesfinished: 0,
            daylimit: 0,
            created: 0,
        },
    }
}

/// A selection as a mathematical value.
pub open spec fn selection(selected: Option<usize>) -> Option<nat> {
    match selected {
        Some(i) => Some(i as nat),
        None => None,
    }
}

/// The index below `selected`, the first one following the last.
fn cycle_down(selected: usize, len: usize) -> (next: usize)
    requires
        len > 0,
    ensures
        next == cycled_down(selected as nat, len as nat),
        next < len,
{
    if selected >= len - 1 {
        0
    } else {
        selected + 1
    }
}

/// The index above `selected`, the last one following the first.
fn cycle_up(selected: usize, len: usize) -> (next: usize)
    requires
        len > 0,
    ensures
        next == cycled_up(selected as nat, len as nat),
        next < len,
{
    if selected == 0 || selected >= len {
        len - 1
    } else {
        selected - 1
    }
}

/// The selection after the list has shrunk to `len` entries.
fn clamp(selected: Option<usize>, len: usize) -> (kept: Option<usize>)
    ensures
        selection(kept) == clamped(selection(selected), len as nat),
        in_bounds(selection(kept), len as nat),
        len == 0 ==> kept is None,
{
    if len == 0 {
        None
    } else {
        match selected {
            Some(i) => if i >= len {
                Some(len - 1)
            } else {
                Some(i)
            },
            None => None,
        }
    }
}

/// The state of the interface.
pub struct App {
    active_menu_item: MenuItem,
    active_block: ActiveBlock,
    active_popup: ActivePopUp,
    topic_selected: Option<usize>,
    item_selected: Option<usize>,
    selected_item: Item,
    selected_topic: Topic,
    form: Form,
}

impl View for App {
    type V = AppView;

    closed spec fn view(&self) -> AppView {
        AppView {
            active_menu_item: self.active_menu_item,
            active_block: self.active_block,
            active_popup: self.active_popup,
            topic_selected: selection(self.topic_selected),
            item_selected: selection(self.item_selected),
            selected_item: self.selected_item@,
            selected_topic: self.selected_topic@,
            form: self.form@,
        }
    }
}

impl App {
    /// The state at the start: the home tab, the list of the topics, no modal,
    /// no topic selected, and an empty form.
    pub fn new() -> (app: App)
        ensures
            app@.wf(),
            app@.active_menu_item == MenuItem::Home,
            app@.active_block == ActiveBlock::Event,
            app@.active_popup == ActivePopUp::Closed,
            app@.topic_selected == None::<nat>,
            app@.item_selected == Some(0nat),
            app@.selected_item == picked_item(Seq::empty(), None),
            app@.selected_topic == picked_topic(Seq::empty(), None),
            app@.form.is_fresh(),
    {
        App {
            active_menu_item: MenuItem::Home,
            active_block: ActiveBlock::Event,
            active_popup: ActivePopUp::Closed,
            topic_selected: None,
            item_selected: Some(0),
            selected_item: Item::default(),
            selected_topic: Topic::default(),
            form: Form::new(),
        }
    }

    pub fn active_menu_item(&self) -> (tab: MenuItem)
        ensures
            tab == self@.active_menu_item,
    {
        self.active_menu_item
    }

    pub fn active_block(&self) -> (block: ActiveBlock)
        ensures
            block == self@.active_block,
    {
        self.active_block
    }

    pub fn active_popup(&self) -> (popup: ActivePopUp)
        ensures
            popup == self@.active_popup,
    {
        self.active_popup
    }

    pub fn topic_selected(&self) -> (selected: Option<usize>)
        ensures
            selection(selected) == self@.topic_selected,
    {
        self.topic_selected
    }

    pub fn item_selected(&self) -> (selected: Option<usize>)
        ensures
            selection(selected) == self@.item_selected,
    {
        self.item_selected
    }

    /// The working copy of the selected item.
    pub fn selected_item(&self) -> (item: &Item)
        ensures
            item@ == self@.selected_item,
    {
        &self.selected_item
    }

    /// The copy of the selected topic.
    pub fn selected_topic(&self) -> (topic: &Topic)
        ensures
            topic@ == self@.selected_topic,
    {
        &self.selected_topic
    }

    pub fn form(&self) -> (form: &Form)
        ensures
            form@ == self@.form,
    {
        &self.form
    }

    /// The index of the topic that counts as selected: the first one where
    /// none is selected.
    pub fn topic_index(&self) -> (index: usize)
        ensures
            index == self@.topic_index(),
    {
        match self.topic_selected {
            Some(i) => i,
            None => 0,
        }
    }

    /// The topic to show as selected, out of the topics that there are.
    pub fn pick_topic(&self, topics: &[Topic]) -> (topic: Topic)
        ensures
            topic@ == picked_topic(topics@, self@.topic_selected),
    {
        let index = self.topic_index();
        if index < topics.len() {
            topics[index].clone()
        } else {
            Topic::default()
        }
    }

    /// The item to show as selected, out of the items of the selected topic.
    pub fn pick_item(&self, items: &[Item]) -> (item: Item)
        ensures
            item@ == picked_item(items@, self@.item_selected),
    {
        match self.item_selected {
            Some(i) => if i < items.len() {
                items[i].clone()
            } else {
                Item::default()
            },
            None => Item::default(),
        }
    }

    /// Takes in what the topics tab shows as selected. While a modal is open,
    /// or another tab, the copies stay as they are: the modal works on them.
    pub fn show(&mut self, topic: Topic, item: Item)
        requires
            old(self)@.wf(),
        ensures
            final(self)@.wf(),
            old(self)@.active_menu_item == MenuItem::Instances && old(self)@.active_popup
                == ActivePopUp::Closed ==> final(self)@ == (AppView {
                selected_topic: topic@,
                selected_item: item@,
                ..old(self)@
            }),
            old(self)@.active_menu_item != MenuItem::Instances || old(self)@.active_popup
                != ActivePopUp::Closed ==> final(self)@ == old(self)@,
    {
        proof {
            use_type_invariant(&item);
        }
        if self.active_menu_item == MenuItem::Instances && self.active_popup
            == ActivePopUp::Closed {
            self.selected_topic = topic;
            self.selected_item = item;
        }
    }

    /// Takes a key press, with `topics` topics and `items` items of the
    /// selected topic at hand, and tells what is to be done.
    ///
    /// A command of the update modal that the counter of the item cannot
    /// take, because it stands at the limit of the machine, changes nothing.
    pub fn on_key(&mut self, key: &KeyInput, topics: usize, items: usize) -> (command: Command)
        requires
            old(self)@.wf(),
        ensures
            final(self)@.wf(),
            key_outcome(
                old(self)@,
                *key,
                topics as nat,
                items as nat,
                final(self)@,
                command@,
            ),
            command is Insert ==> forall|i: int|
                0 <= i < FIELDS ==> field_valid(
                    (#[trigger] final(self)@.form.fields[i]).kind,
                    final(self)@.form.fields[i].text(),
                ),
    {
        if key.alt_with('q') || key.key == Key::End {
            return Command::Quit;
        }
        if self.active_popup == ActivePopUp::Closed {
            let tab = if key.alt_with('h') {
                Some(MenuItem::Home)
            } else if key.alt_with('t') || key.key == Key::Home {
                Some(MenuItem::Instances)
            } else if key.alt_with('a') || key.key == Key::Insert {
                Some(MenuItem::Add)
            } else {
                None
            };
            if let Some(tab) = tab {
                self.active_menu_item = tab;
                return Command::Nothing;
            }
        }
        match self.active_menu_item {
            MenuItem::Home => Command::Nothing,
            MenuItem::Instances => self.on_topics_key(key.key, topics, items),
            MenuItem::Add => self.on_add_key(key),
        }
    }

    /// A key press in the topics tab.
    fn on_topics_key(&mut self, key: Key, topics: usize, items: usize) -> (command: Command)
        requires
            old(self)@.wf(),
            old(self)@.active_menu_item == MenuItem::Instances,
        ensures
            final(self)@.wf(),
            final(self)@ == topics_key(old(self)@, key, topics as nat, items as nat),
            command@ == topics_command(old(self)@, key),
    {
        match (self.active_block, self.active_popup, key) {
            (ActiveBlock::Event, ActivePopUp::Closed, Key::Down) => {
                if topics > 0 {
                    self.topic_selected = Some(cycle_down(self.topic_index(), topics));
                }
                Command::Nothing
            },
            (ActiveBlock::Event, ActivePopUp::Closed, Key::Up) => {
                if topics > 0 {
                    self.topic_selected = Some(cycle_up(self.topic_index(), topics));
                }
                Command::Nothing
            },
            (ActiveBlock::Event, ActivePopUp::Closed, Key::Right) => {
                if items > 0 {
                    self.active_block = ActiveBlock::InstanceBlock;
                    self.item_selected = Some(0);
                }
                Command::Nothing
            },
            (ActiveBlock::InstanceBlock, ActivePopUp::Closed, Key::Down) => {
                if let Some(i) = self.item_selected {
                    if items > 0 {
                        self.item_selected = Some(cycle_down(i, items));
                    }
                }
                Command::Nothing
            },
            (ActiveBlock::InstanceBlock, ActivePopUp::Closed, Key::Up) => {
                if let Some(i) = self.item_selected {
                    if items > 0 {
                        self.item_selected = Some(cycle_up(i, items));
                    }
                }
                Command::Nothing
            },
            (ActiveBlock::InstanceBlock, ActivePopUp::Closed, Key::Left) => {
                self.active_block = ActiveBlock::Event;
                self.topic_selected = Some(self.topic_index());
                Command::Nothing
            },
            (ActiveBlock::InstanceBlock, ActivePopUp::Closed, Key::Enter) => {
                self.active_popup = ActivePopUp::Update;
                Command::Nothing
            },
            (_, ActivePopUp::Closed, Key::Delete) => {
                self.active_popup = ActivePopUp::Delete;
                Command::Nothing
            },
            (ActiveBlock::InstanceBlock, ActivePopUp::Update, Key::Right) => {
                if self.selected_item.may_increment() {
                    self.selected_item.increment_one();
                }
                Command::Nothing
            },
            (ActiveBlock::InstanceBlock, ActivePopUp::Update, Key::Left) => {
                self.selected_item.decrement_one();
                Command::Nothing
            },
            (ActiveBlock::InstanceBlock, ActivePopUp::Update, Key::Tab) => {
                if self.selected_item.may_finish() {
                    self.selected_item.finish_once();
                }
                Command::Nothing
            },
            (ActiveBlock::InstanceBlock, ActivePopUp::Update, Key::Enter) => Command::Update(
                self.selected_item.clone(),
            ),
            (ActiveBlock::InstanceBlock, ActivePopUp::Delete, Key::Enter) => Command::DeleteItem(
                self.selected_item.clone(),
            ),
            (ActiveBlock::Event, ActivePopUp::Delete, Key::Enter) => Command::DeleteTopic(
                self.selected_topic.clone(),
            ),
            (_, ActivePopUp::Update, Key::Esc) | (_, ActivePopUp::Delete, Key::Esc) => {
                self.active_popup = ActivePopUp::Closed;
                Command::Nothing
            },
            _ => Command::Nothing,
        }
    }

    /// A key press in the tab of the form.
    fn on_add_key(&mut self, key: &KeyInput) -> (command: Command)
        requires
            old(self)@.wf(),
            old(self)@.active_menu_item == MenuItem::Add,
        ensures
            final(self)@.wf(),
            add_key(old(self)@, *key, final(self)@, command@),
            command is Insert ==> final(self)@.form.add_given_ok,
    {
        if self.active_popup != ActivePopUp::Closed {
            return Command::Nothing;
        }
        if key.key == Key::Enter {
            if self.form.which() + 1 >= FIELDS {
                match self.form.try_submit() {
                    Some(item) => Command::Insert(item),
                    None => Command::Nothing,
                }
            } else {
                self.form.focus_next();
                Command::Nothing
            }
        } else if key.key == Key::Esc {
            self.form.focus_previous();
            Command::Nothing
        } else {
            let _ = self.form.input(key);
            Command::Nothing
        }
    }

    /// Takes in how the operation went that the last command asked for.
    pub fn complete(&mut self, reply: Reply)
        requires
            old(self)@.wf(),
        ensures
            final(self)@.wf(),
            reply_outcome(old(self)@, reply, final(self)@),
    {
        match reply {
            Reply::Inserted => {
                if self.active_menu_item == MenuItem::Add && self.form.which() + 1 >= FIELDS
                    && self.form.add_given_ok() {
                    self.form.reset();
                }
            },
            Reply::Updated => {
                if self.active_popup == ActivePopUp::Update {
                    self.active_popup = ActivePopUp::Closed;
                }
            },
            Reply::TopicDeleted { topics } => {
                if self.active_popup == ActivePopUp::Delete && self.active_block
                    == ActiveBlock::Event {
                    self.active_popup = ActivePopUp::Closed;
                    self.topic_selected = clamp(self.topic_selected, topics);
                }
            },
            Reply::ItemDeleted { items } => {
                if self.active_popup == ActivePopUp::Delete && self.active_block
                    == ActiveBlock::InstanceBlock {
                    self.active_popup = ActivePopUp::Closed;
                    if items == 0 {
                        self.active_block = ActiveBlock::Event;
                    }
                    self.item_selected = clamp(self.item_selected, items);
                }
            },
            Reply::Failed => {},
        }
    }
}

/// Cycling stays within the list.
pub proof fn lemma_cycle_in_bounds(selected: nat, len: nat)
    requires
        len > 0,
    ensures
        cycled_down(selected, len) < len,
        cycled_up(selected, len) < len,
{
}

/// Within the list, up undoes down and down undoes up: the selection wraps
/// around in both directions.
pub proof fn lemma_cycle_round_trip(selected: nat, len: nat)
    requires
        selected < len,
    ensures
        cycled_up(cycled_down(selected, len), len) == selected,
        cycled_down(cycled_up(selected, len), len) == selected,
{
}

/// After a topic was deleted, the selected topic is one of the topics that
/// are left, and none is selected where none is left.
pub proof fn lemma_topic_selection_after_delete(pre: AppView, topics: usize, post: AppView)
    requires
        pre.active_popup == ActivePopUp::Delete,
        pre.active_block == ActiveBlock::Event,
        reply_outcome(pre, Reply::TopicDeleted { topics }, post),
    ensures
        in_bounds(post.topic_selected, topics as nat),
        topics == 0 ==> post.topic_selected is None,
{
}

/// After an item was deleted, the selected item is one of the items that are
/// left, and none is selected where none is left.
pub proof fn lemma_item_selection_after_delete(pre: AppView, items: usize, post: AppView)
    requires
        pre.active_popup == ActivePopUp::Delete,
        pre.active_block == ActiveBlock::InstanceBlock,
        reply_outcome(pre, Reply::ItemDeleted { items }, post),
    ensures
        in_bounds(post.item_selected, items as nat),
        items == 0 ==> post.item_selected is None,
{
}

/// The form is submitted only while every field is accepted: a key press
/// that asks to create an item finds every field valid, leaves the state as
/// it is, and asks for what the fields hold.
pub proof fn lemma_insert_needs_valid_form(
    pre: AppView,
    key: KeyInput,
    topics: nat,
    items: nat,
    post: AppView,
    command: CommandView,
)
    requires
        pre.wf(),
        key_outcome(pre, key, topics, items, post, command),
        command is Insert,
    ensures
        post == pre,
        pre.active_menu_item == MenuItem::Add,
        pre.form.on_last(),
        forall|i: int|
            0 <= i < FIELDS ==> field_valid(
                (#[trigger] pre.form.fields[i]).kind,
                pre.form.fields[i].text(),
            ),
        command == CommandView::Insert(submitted(pre.form.fields)),
{
}

/// A key that quits does so in every state, and changes nothing.
pub proof fn lemma_quit_in_every_state(
    pre: AppView,
    key: KeyInput,
    topics: nat,
    items: nat,
    post: AppView,
    command: CommandView,
)
    requires
        is_quit(key),
        key_outcome(pre, key, topics, items, post, command),
    ensures
        command == CommandView::Quit,
        post == pre,
{
}

/// While no modal is open, a key that switches tabs opens its tab and
/// changes nothing else.
pub proof fn lemma_tab_keys_switch_tabs(
    pre: AppView,
    key: KeyInput,
    topics: nat,
    items: nat,
    post: AppView,
    command: CommandView,
)
    requires
        pre.active_popup == ActivePopUp::Closed,
        !is_quit(key),
        tab_of(key) is Some,
        key_outcome(pre, key, topics, items, post, command),
    ensures
        command == CommandView::Nothing,
        post == (AppView { active_menu_item: tab_of(key)->0, ..pre }),
{
}

/// A modal takes every key but the ones that quit: while one is open, no key
/// press changes the tab, the list that takes the arrow keys, the selection
/// or the form.
pub proof fn lemma_modal_takes_the_keys(
    pre: AppView,
    key: KeyInput,
    topics: nat,
    items: nat,
    post: AppView,
    command: CommandView,
)
    requires
        pre.wf(),
        pre.active_popup != ActivePopUp::Closed,
        key_outcome(pre, key, topics, items, post, command),
    ensures
        post.active_menu_item == pre.active_menu_item,
        post.active_block == pre.active_block,
        post.topic_selected == pre.topic_selected,
        post.item_selected == pre.item_selected,
        post.form == pre.form,
        post.active_popup == pre.active_popup || post.active_popup == ActivePopUp::Closed,
        !(command is Insert),
{
}

/// A key press leads from a well-formed state to a well-formed state.
pub proof fn lemma_key_keeps_wf(
    pre: AppView,
    key: KeyInput,
    topics: nat,
    items: nat,
    post: AppView,
    command: CommandView,
)
    requires
        pre.wf(),
        key_outcome(pre, key, topics, items, post, command),
    ensures
        post.wf(),
{
    if !is_quit(key) && !(pre.active_popup == ActivePopUp::Closed && tab_of(key) is Some) {
        if pre.active_menu_item == MenuItem::Add && pre.active_popup == ActivePopUp::Closed {
            if key.key == Key::Enter && !pre.form.on_last() {
                lemma_focus_keeps_wf(pre.form, pre.form.which + 1);
            } else if key.key == Key::Esc {
                lemma_focus_keeps_wf(
                    pre.form,
                    if pre.form.which == 0 {
                        0
                    } else {
                        (pre.form.which - 1) as nat
                    },
                );
            }
        }
    }
}

/// A reply leads from a well-formed state to a well-formed state.
pub proof fn lemma_reply_keeps_wf(pre: AppView, reply: Reply, post: AppView)
    requires
        pre.wf(),
        reply_outcome(pre, reply, post),
    ensures
        post.wf(),
{
}

/// Moving the focus within the form keeps the form well formed.
pub proof fn lemma_focus_keeps_wf(form: FormView, which: nat)
    requires
        form.wf(),
        which < FIELDS,
    ensures
        form.focused_on(which).wf(),
{
    let moved = form.focused_on(which);
    assert forall|i: int| 0 <= i < FIELDS implies (#[trigger] moved.fields[i]).wf() by {}
    if all_ok(moved.fields) {
        assert forall|i: int| 0 <= i < FIELDS implies (#[trigger] form.fields[i]).ok by {
            assert(moved.fields[i].ok);
        }
    }
}

} // verus!
