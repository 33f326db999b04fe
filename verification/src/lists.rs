use vstd::prelude::*;

verus! {

/// What the row controls of an editable list ask for: take an item out, or exchange two items.
#[derive(Clone, Copy, Debug, PartialEq, Eq)]
pub enum ListCommand {
    Remove(usize),
    Swap((usize, usize)),
}

/// What the small tool bar in front of an expression asks for.
#[derive(Clone, Copy, Debug, PartialEq, Eq, Structural)]
pub enum ExprControl {
    Noop,
    Delete,
    Copy,
}

impl ListCommand {
    /// The command names positions that exist in a list of `len` items.
    pub open spec fn fits(self, len: nat) -> bool {
        match self {
            ListCommand::Remove(i) => i < len,
            ListCommand::Swap((a, b)) => a < len && b < len,
        }
    }

    /// The list that the command leaves behind.
    pub open spec fn applied_to<T>(self, s: Seq<T>) -> Seq<T> {
        match self {
            ListCommand::Remove(i) => s.remove(i as int),
            ListCommand::Swap((a, b)) => s.update(a as int, s[b as int]).update(b as int, s[a as int]),
        }
    }

    /// Whether the command names positions that exist in a list of `len` items.
    pub fn fits_len(&self, len: usize) -> (r: bool)
        ensures
            r == self.fits(len as nat),
            *self matches ListCommand::Remove(i) ==> (r <==> i < len),
            *self matches ListCommand::Swap((a, b)) ==> (r <==> a < len && b < len),
    {
        match self {
            ListCommand::Remove(i) => *i < len,
            ListCommand::Swap((a, b)) => *a < len && *b < len,
        }
    }

    /// Carries out the command on `list`.
    pub fn apply<T>(&self, list: &mut Vec<T>)
        requires
            self.fits(old(list).len() as nat),
        ensures
            final(list)@ == self.applied_to(old(list)@),
            *self matches ListCommand::Remove(i) ==> {
                &&& final(list)@.len() == old(list)@.len() - 1
                &&& forall|k: int| 0 <= k < i ==> final(list)@[k] == old(list)@[k]
                &&& forall|k: int| i <= k < final(list)@.len() ==> final(list)@[k] == old(list)@[k + 1]
            },
            *self matches ListCommand::Swap((a, b)) ==> {
                &&& final(list)@.len() == old(list)@.len()
                &&& final(list)@[a as int] == old(list)@[b as int]
                &&& final(list)@[b as int] == old(list)@[a as int]
                &&& forall|k: int|
                    0 <= k < old(list)@.len() && k != a && k != b ==> final(list)@[k] == old(list)@[k]
            },
    {
        match self {
            ListCommand::Remove(i) => {
                list.remove(*i);
            },
            ListCommand::Swap((a, b)) => {
                swap_items(list, *a, *b);
            },
        }
    }
}

/// Exchanges the items at `a` and `b`.
fn swap_items<T>(list: &mut Vec<T>, a: usize, b: usize)
    requires
        a < old(list).len(),
        b < old(list).len(),
    ensures
        final(list)@ == old(list)@.update(a as int, old(list)@[b as int]).update(
            b as int,
            old(list)@[a as int],
        ),
{
    let ghost s = list@;
    if a == b {
        assert(s.update(a as int, s[b as int]).update(b as int, s[a as int]) =~= s);
        return ;
    }
    let (lo, hi) = if a < b {
        (a, b)
    } else {
        (b, a)
    };
    let x = list.remove(hi);
    let y = list.remove(lo);
    list.insert(lo, x);
    list.insert(hi, y);
    assert(list@ =~= s.update(a as int, s[b as int]).update(b as int, s[a as int]));
}

/// Which of the row controls of a list item can be used: an item can move up unless it
/// is the first, and down unless it is the last.
#[derive(Clone, Copy, Debug, PartialEq, Eq, Structural)]
pub struct ListItemControls {
    pub up_enabled: bool,
    pub down_enabled: bool,
}

/// The controls of the item at `index` in a list of `len` items.
pub fn list_item_controls(index: usize, len: usize) -> (c: ListItemControls)
    requires
        len > 0,
    ensures
        c.up_enabled == (index > 0),
        c.down_enabled == (index < len - 1),
{
    ListItemControls { up_enabled: index > 0, down_enabled: index < len - 1 }
}

/// The command that the row controls of the item at `index` give, where the user pressed
/// the remove, up or down button. The buttons are looked at in that order, and a button
/// that cannot be used does nothing.
pub open spec fn item_command(
    index: usize,
    len: usize,
    remove_pressed: bool,
    up_pressed: bool,
    down_pressed: bool,
) -> Option<ListCommand> {
    if remove_pressed {
        Some(ListCommand::Remove(index))
    } else if up_pressed && index > 0 {
        Some(ListCommand::Swap((index, (index - 1) as usize)))
    } else if down_pressed && index < len - 1 {
        Some(ListCommand::Swap((index, (index + 1) as usize)))
    } else {
        None
    }
}

/// Decides what the row controls of a list item ask for.
pub fn list_item_command(
    index: usize,
    len: usize,
    remove_pressed: bool,
    up_pressed: bool,
    down_pressed: bool,
) -> (cmd: Option<ListCommand>)
    requires
        len > 0,
    ensures
        cmd == item_command(index, len, remove_pressed, up_pressed, down_pressed),
        remove_pressed ==> cmd == Some(ListCommand::Remove(index)),
        !remove_pressed && up_pressed && index > 0 ==> cmd == Some(
            ListCommand::Swap((index, (index - 1) as usize)),
        ),
        !remove_pressed && !(up_pressed && index > 0) && down_pressed && index + 1 < len ==> cmd
            == Some(ListCommand::Swap((index, (index + 1) as usize))),
        !remove_pressed && !(up_pressed && index > 0) && !(down_pressed && index + 1 < len) ==> cmd
            is None,
{
    let controls = list_item_controls(index, len);
    if remove_pressed {
        Some(ListCommand::Remove(index))
    } else if up_pressed && controls.up_enabled {
        Some(ListCommand::Swap((index, index - 1)))
    } else if down_pressed && controls.down_enabled {
        Some(ListCommand::Swap((index, index + 1)))
    } else {
        None
    }
}

/// Whatever the row controls of an item of the list ask for can be carried out on that list.
pub proof fn lemma_item_command_fits(
    index: usize,
    len: usize,
    remove_pressed: bool,
    up_pressed: bool,
    down_pressed: bool,
)
    requires
        index < len,
    ensures
        item_command(index, len, remove_pressed, up_pressed, down_pressed) matches Some(cmd)
            ==> cmd.fits(len as nat),
{
}

/// Removing an item shortens the list by one and keeps the other items in their order.
pub proof fn lemma_remove_keeps_others<T>(s: Seq<T>, i: usize)
    requires
        i < s.len(),
    ensures
        ListCommand::Remove(i).applied_to(s).len() == s.len() - 1,
        forall|j: int|
            0 <= j < i ==> #[trigger] ListCommand::Remove(i).applied_to(s)[j] == s[j],
        forall|j: int|
            i <= j < s.len() - 1 ==> #[trigger] ListCommand::Remove(i).applied_to(s)[j] == s[j
                + 1],
{
}

/// Exchanging two items twice gives the list back.
pub proof fn lemma_swap_twice<T>(s: Seq<T>, a: usize, b: usize)
    requires
        a < s.len(),
        b < s.len(),
    ensures
        ListCommand::Swap((a, b)).applied_to(ListCommand::Swap((a, b)).applied_to(s)) == s,
{
    let t = ListCommand::Swap((a, b)).applied_to(s);
    assert(ListCommand::Swap((a, b)).applied_to(t) =~= s);
}

/// Exchanging two items keeps the length and the items of the list.
pub proof fn lemma_swap_permutes<T>(s: Seq<T>, a: usize, b: usize)
    requires
        a < s.len(),
        b < s.len(),
    ensures
        ListCommand::Swap((a, b)).applied_to(s).len() == s.len(),
        ListCommand::Swap((a, b)).applied_to(s).to_multiset() == s.to_multiset(),
{
    broadcast use vstd::seq_lib::group_to_multiset_ensures;

    let t = ListCommand::Swap((a, b)).applied_to(s);
    if a != b {
        let u = s.update(a as int, s[b as int]);
        vstd::seq_lib::to_multiset_update(s, a as int, s[b as int]);
        vstd::seq_lib::to_multiset_update(u, b as int, s[a as int]);
        assert(u[b as int] == s[b as int]);
        assert(t.to_multiset() =~= s.to_multiset());
    } else {
        assert(t =~= s);
    }
}

/// Moving an item up with its up button and then down again with the down button of its
/// new row gives the list back.
pub proof fn lemma_up_then_down<T>(s: Seq<T>, len: usize, index: usize)
    requires
        s.len() == len,
        0 < index < len,
    ensures
        ({
            let up = item_command(index, len, false, true, false);
            let down = item_command((index - 1) as usize, len, false, false, true);
            up matches Some(u) && down matches Some(d) && d.applied_to(u.applied_to(s)) == s
        }),
{
    let u = ListCommand::Swap((index, (index - 1) as usize));
    let d = ListCommand::Swap(((index - 1) as usize, index));
    let t = u.applied_to(s);
    assert(d.applied_to(t) =~= s);
}

/// Exchanging the items at `a` and `b` puts each in the other's place, keeps the length,
/// and leaves every other position as it was.
pub proof fn lemma_swap_exchanges<T>(s: Seq<T>, a: usize, b: usize)
    requires
        a < s.len(),
        b < s.len(),
    ensures
        ({
            let t = ListCommand::Swap((a, b)).applied_to(s);
            &&& t.len() == s.len()
            &&& t[a as int] == s[b as int]
            &&& t[b as int] == s[a as int]
            &&& forall|k: int| 0 <= k < s.len() && k != a && k != b ==> #[trigger] t[k] == s[k]
        }),
{
}

/// The row buttons of an item: removing always removes that item; otherwise an enabled up
/// button exchanges it with the one above, else an enabled down button with the one below;
/// otherwise nothing happens.
pub proof fn lemma_row_buttons(
    index: usize,
    len: usize,
    remove_pressed: bool,
    up_pressed: bool,
    down_pressed: bool,
)
    requires
        index < len,
    ensures
        ({
            let cmd = item_command(index, len, remove_pressed, up_pressed, down_pressed);
            &&& remove_pressed ==> cmd == Some(ListCommand::Remove(index))
            &&& !remove_pressed && up_pressed && index > 0 ==> cmd == Some(
                ListCommand::Swap((index, (index - 1) as usize)),
            )
            &&& !remove_pressed && !(up_pressed && index > 0) && down_pressed && index + 1 < len
                ==> cmd == Some(ListCommand::Swap((index, (index + 1) as usize)))
            &&& !remove_pressed && !(up_pressed && index > 0) && !(down_pressed && index + 1 < len)
                ==> cmd is None
        }),
{
}

} // verus!
