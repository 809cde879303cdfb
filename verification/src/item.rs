//! Topics, items and the progress engine.
//!
//! An item carries a completion percentage and a completion counter. The two
//! are coupled: the three progress commands below always change them together,
//! and none of them ever leaves the percentage outside `0..=100`.

use vstd::prelude::*;
use vstd::string::*;

verus! {

/// The filled cell of a progress bar.
pub const FILLED: char = '\u{2588}';

/// The empty cell of a progress bar.
pub const REMAINING: char = '\u{2591}';

/// The number of cells of a progress bar.
pub const BAR_CELLS: usize = 20;

/// The mathematical content of a [`Topic`].
pub struct TopicView {
    pub name: Seq<char>,
    pub created: int,
}

/// A named grouping of items. Its name identifies it.
pub struct Topic {
    name: String,
    created: i64,
}

impl View for Topic {
    type V = TopicView;

    closed spec fn view(&self) -> TopicView {
        TopicView { name: self.name@, created: self.created as int }
    }
}

impl Topic {
    /// A topic with the given name, created at `created` (seconds since the epoch).
    pub fn new(name: String, created: i64) -> (topic: Topic)
        ensures
            topic@ == (TopicView { name: name@, created: created as int }),
    {
        Topic { name, created }
    }

    pub fn name(&self) -> (name: &String)
        ensures
            name@ == self@.name,
    {
        &self.name
    }

    pub fn created(&self) -> (created: i64)
        ensures
            created == self@.created,
    {
        self.created
    }
}

impl Default for Topic {
    /// The topic that stands for "nothing selected": no name, created at the epoch.
    fn default() -> (topic: Topic)
        ensures
            topic@ == (TopicView { name: Seq::empty(), created: 0 }),
    {
        Topic { name: String::new(), created: 0 }
    }
}

impl Clone for Topic {
    fn clone(&self) -> (copy: Topic)
        ensures
            copy@ == self@,
    {
        Topic { name: self.name.clone(), created: self.created }
    }
}

/// The mathematical content of an [`Item`].
pub struct ItemView {
    pub id: nat,
    pub name: Seq<char>,
    pub topicname: Seq<char>,
    pub isrecurring: bool,
    pub percentage: nat,
    pub timesfinished: nat,
    pub daylimit: nat,
    pub created: int,
}

impl ItemView {
    /// Whether "increase" can be carried out: it cannot where it would start a
    /// new cycle and the counter is at the limit of the machine.
    pub open spec fn can_increase(self) -> bool {
        self.isrecurring && self.percentage >= 100 ==> self.timesfinished < usize::MAX
    }

    /// Whether "finish once" can be carried out: it cannot where the counter of
    /// a recurring item is at the limit of the machine.
    pub open spec fn can_finish(self) -> bool {
        self.isrecurring ==> self.timesfinished < usize::MAX
    }
}

/// The state after the command "increase".
///
/// A one-shot item climbs to 99 one step at a time; the step that would reach
/// 100 completes it. A recurring item climbs to 100, and the step after that
/// starts the next cycle at 1.
pub open spec fn increased(item: ItemView) -> ItemView {
    if !item.isrecurring {
        if item.percentage + 1 < 100 {
            ItemView { percentage: item.percentage + 1, ..item }
        } else {
            ItemView { percentage: 100, timesfinished: 1, ..item }
        }
    } else {
        if item.percentage + 1 <= 100 {
            ItemView { percentage: item.percentage + 1, ..item }
        } else {
            ItemView { percentage: 1, timesfinished: item.timesfinished + 1, ..item }
        }
    }
}

/// The state after the command "decrease".
///
/// A one-shot item steps down, stopping at 0, and is no longer finished once it
/// is below 100. A recurring item steps down within its cycle; at 0 it falls back
/// into the previous cycle at 100, if there is one.
pub open spec fn decreased(item: ItemView) -> ItemView {
    let lowered: nat = if item.percentage > 0 {
        (item.percentage - 1) as nat
    } else {
        0
    };
    if !item.isrecurring {
        if lowered < 100 {
            ItemView { percentage: lowered, timesfinished: 0, ..item }
        } else {
            ItemView { percentage: lowered, ..item }
        }
    } else {
        if item.timesfinished == 0 || item.percentage > 0 {
            ItemView { percentage: lowered, ..item }
        } else {
            ItemView {
                percentage: 100,
                timesfinished: (item.timesfinished - 1) as nat,
                ..item
            }
        }
    }
}

/// The state after the command "finish once".
///
/// A one-shot item is complete. A recurring item has one more cycle behind it
/// and stands at the start of the next.
pub open spec fn finished_once(item: ItemView) -> ItemView {
    if !item.isrecurring {
        ItemView { percentage: 100, timesfinished: 1, ..item }
    } else {
        ItemView { percentage: 0, timesfinished: item.timesfinished + 1, ..item }
    }
}

/// The coupling of percentage and counter that a one-shot item is meant to keep:
/// it is finished exactly when it stands at 100.
pub open spec fn one_shot_coupled(item: ItemView) -> bool {
    &&& item.percentage == 100 <==> item.timesfinished == 1
    &&& item.percentage < 100 ==> item.timesfinished == 0
}

/// The progress bar for a percentage: one filled cell for every full five
/// percent, the rest empty.
pub open spec fn dot_vec(percentage: nat) -> Seq<char> {
    Seq::new(
        BAR_CELLS as nat,
        |i: int|
            if i < percentage / 5 {
                FILLED
            } else {
                REMAINING
            },
    )
}

/// A trackable unit of work that belongs to a topic.
pub struct Item {
    id: usize,
    name: String,
    topicname: String,
    isrecurring: bool,
    percentage: u8,
    timesfinished: usize,
    daylimit: usize,
    created: i64,
}

impl View for Item {
    type V = ItemView;

    closed spec fn view(&self) -> ItemView {
        ItemView {
            id: self.id as nat,
            name: self.name@,
            topicname: self.topicname@,
            isrecurring: self.isrecurring,
            percentage: self.percentage as nat,
            timesfinished: self.timesfinished as nat,
            daylimit: self.daylimit as nat,
            created: self.created as int,
        }
    }
}

impl Item {
    /// What holds of every item: its percentage is at most 100.
    #[verifier::type_invariant]
    pub open spec fn in_range(&self) -> bool {
        self@.percentage <= 100
    }

    /// An item with the given contents, or `None` where `percentage` is above 100.
    pub fn new(
        id: usize,
        name: String,
        topicname: String,
        isrecurring: bool,
        percentage: u8,
        timesfinished: usize,
        daylimit: usize,
        created: i64,
    ) -> (item: Option<Item>)
        ensures
            item is Some <==> percentage <= 100,
            item matches Some(it) ==> it@ == (ItemView {
                id: id as nat,
                name: name@,
                topicname: topicname@,
                isrecurring,
                percentage: percentage as nat,
                timesfinished: timesfinished as nat,
                daylimit: daylimit as nat,
                created: created as int,
            }),
    {
        if percentage <= 100 {
            Some(
                Item {
                    id,
                    name,
                    topicname,
                    isrecurring,
                    percentage,
                    timesfinished,
                    daylimit,
                    created,
                },
            )
        } else {
            None
        }
    }

    pub fn id(&self) -> (id: usize)
        ensures
            id == self@.id,
    {
        self.id
    }

    pub fn name(&self) -> (name: &String)
        ensures
            name@ == self@.name,
    {
        &self.name
    }

    pub fn topicname(&self) -> (topicname: &String)
        ensures
            topicname@ == self@.topicname,
    {
        &self.topicname
    }

    pub fn isrecurring(&self) -> (isrecurring: bool)
        ensures
            isrecurring == self@.isrecurring,
    {
        self.isrecurring
    }

    pub fn percentage(&self) -> (percentage: u8)
        ensures
            percentage == self@.percentage,
            percentage <= 100,
    {
        proof {
            use_type_invariant(self);
        }
        self.percentage
    }

    pub fn timesfinished(&self) -> (timesfinished: usize)
        ensures
            timesfinished == self@.timesfinished,
    {
        self.timesfinished
    }

    pub fn daylimit(&self) -> (daylimit: usize)
        ensures
            daylimit == self@.daylimit,
    {
        self.daylimit
    }

    pub fn created(&self) -> (created: i64)
        ensures
            created == self@.created,
    {
        self.created
    }

    /// The progress bar of the item: twenty cells, one filled for every full
    /// five percent.
    pub fn get_dot_vec(&self) -> (bar: String)
        ensures
            bar@ == dot_vec(self@.percentage),
    {
        proof {
            use_type_invariant(self);
            reveal_strlit("\u{2588}");
            reveal_strlit("\u{2591}");
        }
        let p: usize = (self.percentage / 5) as usize;
        let mut bar = String::new();
        let mut i: usize = 0;
        while i < BAR_CELLS
            invariant
                i <= BAR_CELLS,
                p == self@.percentage / 5,
                bar@ == dot_vec(self@.percentage).take(i as int),
                "\u{2588}"@ == seq![FILLED],
                "\u{2591}"@ == seq![REMAINING],
            decreases BAR_CELLS - i,
        {
            if i < p {
                bar.append("\u{2588}");
            } else {
                bar.append("\u{2591}");
            }
            i += 1;
        }
        bar
    }

    /// Tells whether [`Item::increment_one`] may be called.
    pub fn may_increment(&self) -> (may: bool)
        ensures
            may == self@.can_increase(),
    {
        !(self.isrecurring && self.percentage >= 100 && self.timesfinished == usize::MAX)
    }

    /// Tells whether [`Item::finish_once`] may be called.
    pub fn may_finish(&self) -> (may: bool)
        ensures
            may == self@.can_finish(),
    {
        !(self.isrecurring && self.timesfinished == usize::MAX)
    }

    /// The command "increase".
    pub fn increment_one(&mut self)
        requires
            old(self)@.can_increase(),
        ensures
            final(self)@ == increased(old(self)@),
            final(self)@.percentage <= 100,
    {
        proof {
            use_type_invariant(&*self);
        }
        if !self.isrecurring {
            if self.percentage + 1 < 100 {
                self.percentage += 1;
            } else {
                self.percentage = 100;
                self.timesfinished = 1;
            }
        } else {
            if self.percentage + 1 <= 100 {
                self.percentage += 1;
            } else {
                self.percentage = 1;
                self.timesfinished += 1;
            }
        }
    }

    /// The command "decrease".
    pub fn decrement_one(&mut self)
        ensures
            final(self)@ == decreased(old(self)@),
            final(self)@.percentage <= 100,
    {
        proof {
            use_type_invariant(&*self);
        }
        if !self.isrecurring {
            self.percentage = self.percentage.saturating_sub(1);
            if self.percentage < 100 {
                self.timesfinished = 0;
            }
        } else {
            if self.timesfinished == 0 {
                self.percentage = self.percentage.saturating_sub(1);
            } else {
                match self.percentage.checked_sub(1) {
                    Some(n) => {
                        self.percentage = n;
                    },
                    None => {
                        self.percentage = 100;
                        self.timesfinished -= 1;
                    },
                }
            }
        }
    }

    /// The command "finish once".
    pub fn finish_once(&mut self)
        requires
            old(self)@.can_finish(),
        ensures
            final(self)@ == finished_once(old(self)@),
            final(self)@.percentage <= 100,
    {
        if !self.isrecurring {
            self.percentage = 100;
            self.timesfinished = 1;
        } else {
            self.percentage = 0;
            self.timesfinished += 1;
        }
    }
}

impl Default for Item {
    /// The item that stands for "nothing selected": a one-shot item without a
    /// name, at zero.
    fn default() -> (item: Item)
        ensures
            item@ == (ItemView {
                id: 0,
                name: Seq::empty(),
                topicname: Seq::empty(),
                isrecurring: false,
                percentage: 0,
                timesfinished: 0,
                daylimit: 0,
                created: 0,
            }),
    {
        Item {
            id: 0,
            name: String::new(),
            topicname: String::new(),
            isrecurring: false,
            percentage: 0,
            timesfinished: 0,
            daylimit: 0,
            created: 0,
        }
    }
}

impl Clone for Item {
    fn clone(&self) -> (copy: Item)
        ensures
            copy@ == self@,
    {
        proof {
            use_type_invariant(self);
        }
        Item {
            id: self.id,
            name: self.name.clone(),
            topicname: self.topicname.clone(),
            isrecurring: self.isrecurring,
            percentage: self.percentage,
            timesfinished: self.timesfinished,
            daylimit: self.daylimit,
            created: self.created,
        }
    }
}

/// Every progress command leaves the percentage within `0..=100`.
pub proof fn lemma_percentage_stays_in_range(item: ItemView)
    requires
        item.percentage <= 100,
    ensures
        increased(item).percentage <= 100,
        decreased(item).percentage <= 100,
        finished_once(item).percentage <= 100,
{
}

/// A one-shot item is coupled after every command: it is finished exactly
/// when it stands at 100.
///
/// One case is left out, in which the counter is not touched: "increase" on
/// an item that was marked finished while it stood below 99.
pub proof fn lemma_one_shot_stays_coupled(item: ItemView)
    requires
        !item.isrecurring,
        item.percentage <= 100,
    ensures
        one_shot_coupled(decreased(item)),
        one_shot_coupled(finished_once(item)),
        !(item.percentage + 1 < 100 && item.timesfinished != 0) ==> one_shot_coupled(
            increased(item),
        ),
{
}

/// A one-shot item that is coupled stays so under every command.
pub proof fn lemma_coupling_is_kept(item: ItemView)
    requires
        !item.isrecurring,
        item.percentage <= 100,
        one_shot_coupled(item),
    ensures
        one_shot_coupled(increased(item)),
        one_shot_coupled(decreased(item)),
        one_shot_coupled(finished_once(item)),
{
}

/// A one-shot item only ever has a counter of 0 or 1 after a command, given
/// that it had one before.
pub proof fn lemma_one_shot_counter(item: ItemView)
    requires
        !item.isrecurring,
        item.timesfinished <= 1,
    ensures
        increased(item).timesfinished <= 1,
        decreased(item).timesfinished <= 1,
        finished_once(item).timesfinished <= 1,
{
}

/// No command changes anything but the percentage and the counter.
pub proof fn lemma_commands_keep_identity(item: ItemView)
    ensures
        increased(item) == (ItemView {
            percentage: increased(item).percentage,
            timesfinished: increased(item).timesfinished,
            ..item
        }),
        decreased(item) == (ItemView {
            percentage: decreased(item).percentage,
            timesfinished: decreased(item).timesfinished,
            ..item
        }),
        finished_once(item) == (ItemView {
            percentage: finished_once(item).percentage,
            timesfinished: finished_once(item).timesfinished,
            ..item
        }),
{
}

/// "Increase" never leaves an item at 0: a cycle that is completed goes
/// straight on to the next one at 1.
pub proof fn lemma_increase_leaves_zero(item: ItemView)
    ensures
        increased(item).percentage >= 1,
{
}

} // verus!
