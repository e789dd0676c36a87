//! The catalogue of declarable actions and the rule queries over it.

use vstd::prelude::*;

use crate::PlayerID;

verus! {

pub const INCOME_VALUE: u8 = 1;

pub const FOREIGN_AID_VALUE: u8 = 2;

pub const STEAL_VALUE: u8 = 2;

pub const TAX_VALUE: u8 = 3;

pub const COUP_COST: u8 = 7;

pub const ASSASSINATE_COST: u8 = 3;

/// How many cards an exchange draws. Kept under `value` for
/// compatibility, though it counts cards rather than coins.
pub const EXCHANGE_CARDS: u8 = 2;

/// A declarable move. The set of variants is closed: every query below
/// handles all eleven, and there is no "unknown action" state.
///
/// `Assassinate`, `Coup` and `Steal` carry the player they are aimed
/// at; the other eight variants are untargeted.
#[derive(Debug, Clone, PartialEq, Eq, Structural)]
pub enum Action {
    Income,
    ForeignAid,
    Tax,
    Assassinate(PlayerID),
    Coup(PlayerID),
    Steal(PlayerID),
    Exchange,
    BlockForeignAid,
    BlockAssassination,
    BlockStealCaptain,
    BlockStealAmbassador,
}

impl Action {
    /// The amount an action grants its actor on successful resolution:
    /// coins, except for `Exchange`, where it is the card-draw count.
    pub open spec fn spec_value(self) -> u8 {
        match self {
            Action::Income => INCOME_VALUE,
            Action::ForeignAid => FOREIGN_AID_VALUE,
            Action::Tax => TAX_VALUE,
            Action::Steal(_) => STEAL_VALUE,
            Action::Exchange => EXCHANGE_CARDS,
            _ => 0,
        }
    }

    /// The coin cost an actor pays to declare an action.
    pub open spec fn spec_cost(self) -> u8 {
        match self {
            Action::Assassinate(_) => ASSASSINATE_COST,
            Action::Coup(_) => COUP_COST,
            _ => 0,
        }
    }

    pub fn value(&self) -> (r: u8)
        ensures
            r == self.spec_value(),
    {
        match self {
            Action::Income => INCOME_VALUE,
            Action::ForeignAid => FOREIGN_AID_VALUE,
            Action::Tax => TAX_VALUE,
            Action::Steal(..) => STEAL_VALUE,
            Action::Exchange => EXCHANGE_CARDS,
            _ => 0,
        }
    }

    pub fn cost(&self) -> (r: u8)
        ensures
            r == self.spec_cost(),
    {
        match self {
            Action::Assassinate(..) => ASSASSINATE_COST,
            Action::Coup(..) => COUP_COST,
            _ => 0,
        }
    }

    /// The counter-actions with which the player `id` may block this
    /// action, or `None` when that player may not block it.
    ///
    /// `Assassinate` and `Steal` can be blocked only by their target;
    /// `ForeignAid` can be blocked by anyone; nothing else can be
    /// blocked, and in particular a block cannot be blocked. The order
    /// of the two counters to `Steal` matters for display: the Captain
    /// option precedes the Ambassador one.
    pub open spec fn spec_blockable(self, id: PlayerID) -> Option<Seq<Action>> {
        match self {
            Action::Assassinate(target) => if target == id {
                Some(seq![Action::BlockAssassination])
            } else {
                None
            },
            Action::Steal(target) => if target == id {
                Some(seq![Action::BlockStealCaptain, Action::BlockStealAmbassador])
            } else {
                None
            },
            Action::ForeignAid => Some(seq![Action::BlockForeignAid]),
            _ => None,
        }
    }

    pub fn blockable(&self, id: &PlayerID) -> (r: Option<Vec<Action>>)
        ensures
            blocks_view(r) == self.spec_blockable(*id),
    {
        match self {
            Action::Income
            | Action::Coup(..)
            | Action::Exchange
            | Action::Tax
            | Action::BlockForeignAid
            | Action::BlockAssassination
            | Action::BlockStealCaptain
            | Action::BlockStealAmbassador => None,
            Action::Assassinate(target) => if target == id {
                let blocks = vec![Action::BlockAssassination];
                proof {
                    assert(blocks@ =~= seq![Action::BlockAssassination]);
                }
                Some(blocks)
            } else {
                None
            },
            Action::Steal(target) => if target == id {
                let blocks = vec![Action::BlockStealCaptain, Action::BlockStealAmbassador];
                proof {
                    assert(blocks@ =~= seq![
                        Action::BlockStealCaptain,
                        Action::BlockStealAmbassador,
                    ]);
                }
                Some(blocks)
            } else {
                None
            },
            Action::ForeignAid => {
                let blocks = vec![Action::BlockForeignAid];
                proof {
                    assert(blocks@ =~= seq![Action::BlockForeignAid]);
                }
                Some(blocks)
            },
        }
    }

    /// Whether declaring this action can be disputed by a challenge.
    ///
    /// `Income`, `ForeignAid` and `Coup` need no influence card to
    /// justify them, so they alone cannot be challenged; every block is
    /// a character claim and can be.
    pub open spec fn spec_challengable(self) -> bool {
        match self {
            Action::Income | Action::ForeignAid | Action::Coup(_) => false,
            _ => true,
        }
    }

    pub fn challengable(&self) -> (r: bool)
        ensures
            r == self.spec_challengable(),
    {
        match self {
            Action::Income | Action::ForeignAid | Action::Coup(..) => false,
            _ => true,
        }
    }

    /// The fixed human-readable label of each variant.
    pub open spec fn spec_display_name(self) -> Seq<char> {
        match self {
            Action::Income => "Income"@,
            Action::ForeignAid => "Foreign Aid"@,
            Action::Tax => "Tax"@,
            Action::Assassinate(_) => "Assassinate"@,
            Action::Coup(_) => "Coup"@,
            Action::Steal(_) => "Steal"@,
            Action::Exchange => "Exchange"@,
            Action::BlockForeignAid => "Block Foreign Aid"@,
            Action::BlockAssassination => "Contess"@,
            Action::BlockStealCaptain => "Block as Captain"@,
            Action::BlockStealAmbassador => "Block as Ambassador"@,
        }
    }

    pub fn display_name(&self) -> (r: String)
        ensures
            r@ == self.spec_display_name(),
    {
        match self {
            Action::Income => "Income".to_owned(),
            Action::ForeignAid => "Foreign Aid".to_owned(),
            Action::Tax => "Tax".to_owned(),
            Action::Assassinate(..) => "Assassinate".to_owned(),
            Action::Coup(..) => "Coup".to_owned(),
            Action::Steal(..) => "Steal".to_owned(),
            Action::Exchange => "Exchange".to_owned(),
            Action::BlockForeignAid => "Block Foreign Aid".to_owned(),
            Action::BlockAssassination => "Contess".to_owned(),
            Action::BlockStealCaptain => "Block as Captain".to_owned(),
            Action::BlockStealAmbassador => "Block as Ambassador".to_owned(),
        }
    }
}

/// The sequence of actions a `blockable` answer holds, if any.
pub open spec fn blocks_view(r: Option<Vec<Action>>) -> Option<Seq<Action>> {
    match r {
        Some(v) => Some(v@),
        None => None,
    }
}

/// Whether an action is one of the four counter-actions.
pub open spec fn is_block_action(a: Action) -> bool {
    match a {
        Action::BlockForeignAid
        | Action::BlockAssassination
        | Action::BlockStealCaptain
        | Action::BlockStealAmbassador => true,
        _ => false,
    }
}

/// No action both grants and costs coins; outside the four block
/// actions, whose value and cost are both zero, exactly one of the two
/// is non-zero. (`Exchange` counts here through its card-draw count.)
pub proof fn lemma_value_cost_exclusive(a: Action)
    ensures
        a.spec_value() == 0 || a.spec_cost() == 0,
        !is_block_action(a) ==> (a.spec_value() > 0 <==> a.spec_cost() == 0),
{
}

/// The cost of a targeted action is fixed by its shape alone: any
/// `Coup` costs seven coins and any `Assassinate` three, whoever the
/// target is.
pub proof fn lemma_cost_independent_of_target(p: PlayerID, q: PlayerID)
    ensures
        Action::Coup(p).spec_cost() == COUP_COST,
        Action::Assassinate(p).spec_cost() == ASSASSINATE_COST,
        Action::Coup(p).spec_cost() == Action::Coup(q).spec_cost(),
        Action::Assassinate(p).spec_cost() == Action::Assassinate(q).spec_cost(),
{
}

/// An assassination is blockable exactly by its target, with the one
/// counter `BlockAssassination`.
pub proof fn lemma_blockable_assassinate(p: PlayerID, q: PlayerID)
    ensures
        Action::Assassinate(p).spec_blockable(p) == Some(seq![Action::BlockAssassination]),
        q != p ==> Action::Assassinate(p).spec_blockable(q) is None,
{
    assert(Action::Assassinate(p).spec_blockable(p) matches Some(s) && s =~= seq![
        Action::BlockAssassination,
    ]);
}

/// A steal is blockable exactly by its target, with the Captain
/// counter before the Ambassador one.
pub proof fn lemma_blockable_steal(p: PlayerID, q: PlayerID)
    ensures
        Action::Steal(p).spec_blockable(p) == Some(seq![
            Action::BlockStealCaptain,
            Action::BlockStealAmbassador,
        ]),
        q != p ==> Action::Steal(p).spec_blockable(q) is None,
{
    assert(Action::Steal(p).spec_blockable(p) matches Some(s) && s =~= seq![
        Action::BlockStealCaptain,
        Action::BlockStealAmbassador,
    ]);
}

/// Foreign aid is blockable by every player alike, with the one
/// counter `BlockForeignAid`.
pub proof fn lemma_blockable_foreign_aid(anyone: PlayerID)
    ensures
        Action::ForeignAid.spec_blockable(anyone) == Some(seq![Action::BlockForeignAid]),
{
    assert(Action::ForeignAid.spec_blockable(anyone) matches Some(s) && s =~= seq![
        Action::BlockForeignAid,
    ]);
}

/// `Income`, `Coup`, `Exchange`, `Tax` and the four block actions can
/// be blocked by nobody.
pub proof fn lemma_never_blockable(a: Action, anyone: PlayerID)
    requires
        a is Income || a is Coup || a is Exchange || a is Tax || is_block_action(a),
    ensures
        a.spec_blockable(anyone) is None,
{
}

/// An action cannot be challenged exactly when it is `Income`,
/// `ForeignAid` or `Coup`; the nine other variants all can be.
pub proof fn lemma_challengable_iff(a: Action)
    ensures
        !a.spec_challengable() <==> (a is Income || a is ForeignAid || a is Coup),
{
}

/// Every variant carries a non-empty display label, and equal actions
/// carry the same one.
pub proof fn lemma_display_name_nonempty(a: Action, b: Action)
    ensures
        a.spec_display_name().len() > 0,
        a == b ==> a.spec_display_name() == b.spec_display_name(),
{
    reveal_strlit("Income");
    reveal_strlit("Foreign Aid");
    reveal_strlit("Tax");
    reveal_strlit("Assassinate");
    reveal_strlit("Coup");
    reveal_strlit("Steal");
    reveal_strlit("Exchange");
    reveal_strlit("Block Foreign Aid");
    reveal_strlit("Contess");
    reveal_strlit("Block as Captain");
    reveal_strlit("Block as Ambassador");
}

} // verus!
