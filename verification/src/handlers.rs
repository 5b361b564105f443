//! What each request decides before and after the store is asked.

use crate::clock::{current_timestamp, CLOCK_BOUND};
use crate::ids::{fresh_id, is_uuid_text};
use crate::models::{ComparisonPair, ComparisonRequest, CreateItem, UpdateItem};
use crate::pairing::PairPolicy;
use crate::ranking::RankingError;
use vstd::prelude::*;
use vstd::string::StringExecFns;

verus! {

/// How a client narrows the list of items.
#[derive(Debug)]
pub struct ListItemsQuery {
    /// Only items of the category with this name.
    pub category: Option<String>,
}

/// A statement for the store, with the values of its placeholders in order.
#[derive(Debug)]
pub struct Statement {
    pub sql: String,
    pub args: Vec<String>,
}

/// The statement that reads every item with its category's name.
pub const ITEMS_SELECT: &'static str =
    "SELECT i.id, i.name, i.notes, i.image_url, i.rating as rank_order, i.created_at, i.elo_rating, i.elo_rd, i.elo_vol, i.match_count, c.name as category FROM items i JOIN categories c ON i.category_id = c.id";

/// The text of `ITEMS_SELECT`.
pub open spec fn items_select() -> Seq<char> {
    ITEMS_SELECT@
}

/// The clause that keeps the items of one category, named by a placeholder.
pub open spec fn category_clause() -> Seq<char> {
    " WHERE c.name = ?"@
}

/// The clause that keeps the item with one identifier, named by a
/// placeholder.
pub open spec fn id_clause() -> Seq<char> {
    " WHERE i.id = ?"@
}

/// The clause that puts the strongest item first.
pub open spec fn order_clause() -> Seq<char> {
    " ORDER BY i.elo_rating DESC"@
}

/// The clause that keeps two items drawn at random.
pub open spec fn random_pair_clause() -> Seq<char> {
    " ORDER BY RANDOM() LIMIT 2"@
}

/// Which items a statement reads.
#[derive(Debug)]
pub enum ItemSelection {
    /// Every item, strongest first.
    All,
    /// The items of the category with this name, strongest first.
    InCategory(String),
    /// The item with this identifier.
    ById(String),
    /// Two items drawn at random by the store.
    RandomPair,
}

/// The text of the statement that reads `selection`.
pub open spec fn selection_text(selection: ItemSelection) -> Seq<char> {
    match selection {
        ItemSelection::All => items_select() + order_clause(),
        ItemSelection::InCategory(_) => items_select() + category_clause() + order_clause(),
        ItemSelection::ById(_) => items_select() + id_clause(),
        ItemSelection::RandomPair => items_select() + random_pair_clause(),
    }
}

/// The values of the placeholders of that statement, in order: the name of
/// the category or the identifier where the selection has one, else none.
pub open spec fn selection_args(selection: ItemSelection) -> Seq<String> {
    match selection {
        ItemSelection::All => seq![],
        ItemSelection::InCategory(name) => seq![name],
        ItemSelection::ById(id) => seq![id],
        ItemSelection::RandomPair => seq![],
    }
}

/// Builds the statement that reads `selection`. What the client sent stands
/// in the values of the placeholders, never in the text.
pub fn select_items(selection: ItemSelection) -> (r: Statement)
    ensures
        r.sql@ == selection_text(selection),
        r.args@ == selection_args(selection),
{
    let mut sql = String::from_str(ITEMS_SELECT);
    let mut args: Vec<String> = Vec::new();
    match selection {
        ItemSelection::All => {
            sql.append(" ORDER BY i.elo_rating DESC");
        },
        ItemSelection::InCategory(name) => {
            sql.append(" WHERE c.name = ?");
            sql.append(" ORDER BY i.elo_rating DESC");
            args.push(name);
        },
        ItemSelection::ById(id) => {
            sql.append(" WHERE i.id = ?");
            args.push(id);
        },
        ItemSelection::RandomPair => {
            sql.append(" ORDER BY RANDOM() LIMIT 2");
        },
    }
    Statement { sql, args }
}

/// Which items `query` asks for: those of its category, or all.
pub open spec fn listed(query: ListItemsQuery) -> ItemSelection {
    match query.category {
        Some(name) => ItemSelection::InCategory(name),
        None => ItemSelection::All,
    }
}

/// Builds the statement that lists the items that `query` asks for, strongest
/// first. With a category the statement holds one placeholder, whose value is
/// the category's name; without one it holds none.
pub fn get_items(query: ListItemsQuery) -> (r: Statement)
    ensures
        r.sql@ == selection_text(listed(query)),
        r.args@ == selection_args(listed(query)),
{
    match query.category {
        Some(name) => select_items(ItemSelection::InCategory(name)),
        None => select_items(ItemSelection::All),
    }
}

/// Why a request for one item is turned down.
#[derive(Debug, Clone, Copy, PartialEq, Eq, Structural)]
pub enum ItemError {
    /// The store holds no item under the identifier.
    NotFound,
}

impl ItemError {
    /// The HTTP status that answers the request: 404.
    pub open spec fn status_code(&self) -> u16 {
        404
    }

    /// The text that answers the request.
    pub open spec fn message_text(&self) -> Seq<char> {
        "Item not found"@
    }

    /// The HTTP status that answers the request.
    pub fn status(&self) -> (code: u16)
        ensures
            code == self.status_code(),
    {
        404
    }

    /// The text that answers the request.
    pub fn message(&self) -> (text: String)
        ensures
            text@ == self.message_text(),
    {
        String::from_str("Item not found")
    }
}

/// Answers a request for one item: `found` is what the store holds under
/// the item's identifier. An item that is there is handed on; one that is not
/// turns the request down.
pub fn found_item<T>(found: Option<T>) -> (r: Result<T, ItemError>)
    ensures
        found is Some ==> r == Ok::<T, ItemError>(found->0),
        found is None ==> r == Err::<T, ItemError>(ItemError::NotFound),
{
    match found {
        Some(item) => Ok(item),
        None => Err(ItemError::NotFound),
    }
}

/// Which category an item goes to.
#[derive(Debug)]
pub enum CategoryChoice {
    /// The category is in the store, under this identifier.
    Existing(String),
    /// The category is new: it is to be entered under this identifier.
    Create(String),
}

/// Chooses the identifier of a category: `found` is what the store holds
/// under the category's name. A category that is there keeps its identifier;
/// one that is not gets a fresh one, and is to be entered.
pub fn get_or_create_category_id(found: Option<String>) -> (r: CategoryChoice)
    ensures
        found is Some ==> (r matches CategoryChoice::Existing(id) && id == found->0),
        found is None ==> (r matches CategoryChoice::Create(id) && is_uuid_text(id@)),
{
    match found {
        Some(id) => CategoryChoice::Existing(id),
        None => CategoryChoice::Create(fresh_id()),
    }
}

/// An item as it is entered into the store. Its rating starts from the
/// store's defaults.
#[derive(Debug)]
pub struct NewItem {
    pub id: String,
    pub category_id: String,
    pub name: String,
    pub notes: Option<String>,
    pub image_url: Option<String>,
}

/// Makes the item that `payload` asks for, in the category with the
/// identifier `category_id`: it gets a fresh identifier and holds what the
/// client sent.
pub fn create_item(payload: CreateItem, category_id: String) -> (r: NewItem)
    ensures
        is_uuid_text(r.id@),
        r.category_id == category_id,
        r.name == payload.name,
        r.notes == payload.notes,
        r.image_url == payload.image_url,
{
    NewItem {
        id: fresh_id(),
        category_id,
        name: payload.name,
        notes: payload.notes,
        image_url: payload.image_url,
    }
}

/// The statement that sets one text column of one item: its first
/// placeholder is the new value, its second the item's identifier.
pub open spec fn set_column(column: Seq<char>) -> Seq<char> {
    "UPDATE items SET "@ + column + " = ? WHERE id = ?"@
}

/// What a change of an item asks of the store.
#[derive(Debug)]
pub struct UpdatePlan {
    /// The name of the category to move the item to, if it moves.
    pub category: Option<String>,
    /// The statements that set the item's text columns, in the order in which
    /// they run.
    pub statements: Vec<Statement>,
}

/// The columns that `payload` sets with their new values, in the order in
/// which they are set: the name, the notes, the image's address.
pub open spec fn column_changes(payload: UpdateItem) -> Seq<(Seq<char>, String)> {
    let name = if payload.name is Some {
        seq![("name"@, payload.name->0)]
    } else {
        seq![]
    };
    let notes = if payload.notes is Some {
        seq![("notes"@, payload.notes->0)]
    } else {
        seq![]
    };
    let image_url = if payload.image_url is Some {
        seq![("image_url"@, payload.image_url->0)]
    } else {
        seq![]
    };
    name + notes + image_url
}

/// Whether `statement` sets `change.0` to `change.1` on the item `id`.
pub open spec fn sets_column(
    statement: Statement,
    change: (Seq<char>, String),
    id: Seq<char>,
) -> bool {
    &&& statement.sql@ == set_column(change.0)
    &&& statement.args@.len() == 2
    &&& statement.args@[0] == change.1
    &&& statement.args@[1]@ == id
}

/// The statement that sets `column` of the item `id` to `value`.
fn column_statement(column: &str, value: String, id: &str) -> (r: Statement)
    ensures
        sets_column(r, (column@, value), id@),
{
    let sql = String::from_str("UPDATE items SET ").concat(column).concat(" = ? WHERE id = ?");
    let mut args: Vec<String> = Vec::new();
    args.push(value);
    args.push(String::from_str(id));
    Statement { sql, args }
}

/// Plans the change that `payload` asks for on the item `id`: one statement
/// for each text column that `payload` holds, and no other, in the order of
/// `column_changes`; the category, if any, is handed on by its name, for the
/// store has to be asked for its identifier first.
pub fn update_item(id: &str, payload: UpdateItem) -> (r: UpdatePlan)
    ensures
        r.category == payload.category,
        r.statements@.len() == column_changes(payload).len(),
        forall|i: int|
            0 <= i < r.statements@.len() ==> sets_column(
                #[trigger] r.statements@[i],
                column_changes(payload)[i],
                id@,
            ),
{
    let mut statements: Vec<Statement> = Vec::new();
    if let Some(value) = payload.name {
        statements.push(column_statement("name", value, id));
    }
    if let Some(value) = payload.notes {
        statements.push(column_statement("notes", value, id));
    }
    if let Some(value) = payload.image_url {
        statements.push(column_statement("image_url", value, id));
    }
    UpdatePlan { category: payload.category, statements }
}

/// Pairs the two items that `policy` picks among `items`, for the next
/// comparison. The store draws at random where it is asked for a random pair:
/// the policy for its answer is `LeadingPair`. Fewer than two items are too
/// few to compare.
pub fn get_ranking_pair<T, P: PairPolicy>(items: Vec<T>, policy: &P) -> (r: Result<
    ComparisonPair<T>,
    RankingError,
>)
    ensures
        items@.len() < 2 ==> r == Err::<ComparisonPair<T>, RankingError>(
            RankingError::InsufficientCandidates,
        ),
        items@.len() >= 2 ==> r == Ok::<ComparisonPair<T>, RankingError>(
            (ComparisonPair {
                item1: items@[policy.choice(items@.len() as int).0],
                item2: items@[policy.choice(items@.len() as int).1],
            }),
        ),
        items@.len() >= 2 ==> {
            let c = policy.choice(items@.len() as int);
            0 <= c.0 < items@.len() && 0 <= c.1 < items@.len() && c.0 != c.1
        },
        items@.len() >= 2 && items@.no_duplicates() ==> (r matches Ok(pair) && pair.item1
            != pair.item2),
{
    let mut items = items;
    let count: usize = items.len();
    if count < 2 {
        return Err(RankingError::InsufficientCandidates);
    }
    let (first, second) = policy.pick(count);
    if first < second {
        let item2 = items.remove(second);
        let item1 = items.remove(first);
        Ok(ComparisonPair { item1, item2 })
    } else {
        let item1 = items.remove(first);
        let item2 = items.remove(second);
        Ok(ComparisonPair { item1, item2 })
    }
}

/// Why a vote is turned down.
#[derive(Debug, Clone, Copy, PartialEq, Eq, Structural)]
pub enum VoteError {
    /// The store holds no item under the winner's identifier.
    WinnerNotFound,
    /// The store holds no item under the loser's identifier.
    LoserNotFound,
    /// The winner and the loser are one item.
    SameItem,
}

impl VoteError {
    /// The HTTP status that answers the request: 400 for a vote between an
    /// item and itself, 404 for an item that is not there.
    pub open spec fn status_code(&self) -> u16 {
        match self {
            VoteError::SameItem => 400,
            VoteError::WinnerNotFound => 404,
            VoteError::LoserNotFound => 404,
        }
    }

    /// The text that answers the request.
    pub open spec fn message_text(&self) -> Seq<char> {
        match self {
            VoteError::SameItem => "Winner and loser must differ"@,
            VoteError::WinnerNotFound => "Winner not found"@,
            VoteError::LoserNotFound => "Loser not found"@,
        }
    }

    /// The HTTP status that answers the request.
    pub fn status(&self) -> (code: u16)
        ensures
            code == self.status_code(),
    {
        match self {
            VoteError::SameItem => 400,
            VoteError::WinnerNotFound => 404,
            VoteError::LoserNotFound => 404,
        }
    }

    /// The text that answers the request.
    pub fn message(&self) -> (text: String)
        ensures
            text@ == self.message_text(),
    {
        match self {
            VoteError::SameItem => String::from_str("Winner and loser must differ"),
            VoteError::WinnerNotFound => String::from_str("Winner not found"),
            VoteError::LoserNotFound => String::from_str("Loser not found"),
        }
    }
}

/// The record of one comparison: which item won, which lost, and when. It is
/// made once and never changed, and it never sets an item against itself.
#[derive(Debug)]
pub struct ComparisonEvent {
    winner_item_id: String,
    loser_item_id: String,
    timestamp: i64,
}

impl ComparisonEvent {
    /// The winner and the loser are two items.
    #[verifier::type_invariant]
    spec fn two_items(&self) -> bool {
        self.winner_item_id@ != self.loser_item_id@
    }

    /// The identifier of the item that won.
    pub closed spec fn winner(&self) -> Seq<char> {
        self.winner_item_id@
    }

    /// The identifier of the item that lost.
    pub closed spec fn loser(&self) -> Seq<char> {
        self.loser_item_id@
    }

    /// When the vote was taken, in seconds since the start of 1970.
    pub closed spec fn time(&self) -> int {
        self.timestamp as int
    }

    /// The identifier of the item that won, which is not the one that lost.
    pub fn winner_item_id(&self) -> (id: &String)
        ensures
            id@ == self.winner(),
            self.winner() != self.loser(),
    {
        proof {
            use_type_invariant(self);
        }
        &self.winner_item_id
    }

    /// The identifier of the item that lost, which is not the one that won.
    pub fn loser_item_id(&self) -> (id: &String)
        ensures
            id@ == self.loser(),
            self.winner() != self.loser(),
    {
        proof {
            use_type_invariant(self);
        }
        &self.loser_item_id
    }

    /// When the vote was taken, in seconds since the start of 1970.
    pub fn timestamp(&self) -> (t: i64)
        ensures
            t == self.time(),
    {
        self.timestamp
    }
}

/// A vote that is ready to be rated and stored: the two items as the store
/// held them before the vote, and the record of the comparison.
#[derive(Debug)]
pub struct Vote<T> {
    pub winner: T,
    pub loser: T,
    pub event: ComparisonEvent,
}

/// Why a vote is turned down, if it is: one whose winner the store does not
/// hold first, then one whose loser it does not hold, then a vote between an
/// item and itself.
pub open spec fn vote_refusal<T>(
    request: ComparisonRequest,
    winner: Option<T>,
    loser: Option<T>,
) -> Option<VoteError> {
    if winner is None {
        Some(VoteError::WinnerNotFound)
    } else if loser is None {
        Some(VoteError::LoserNotFound)
    } else if request.winner_id@ == request.loser_id@ {
        Some(VoteError::SameItem)
    } else {
        None
    }
}

/// Whether `vote` is the vote that `request` asks for between the items
/// `winner` and `loser`: it holds both items as given, and its record holds
/// the two identifiers of the request.
pub open spec fn is_vote_of<T>(
    vote: Vote<T>,
    request: ComparisonRequest,
    winner: T,
    loser: T,
) -> bool {
    &&& vote.winner == winner
    &&& vote.loser == loser
    &&& vote.event.winner() == request.winner_id@
    &&& vote.event.loser() == request.loser_id@
}

/// Takes a vote at the time `now`: `winner` and `loser` are what the store
/// holds under the two identifiers of `request`.
///
/// The vote is turned down as `vote_refusal` says. Every other vote is
/// accepted, with both items as given and a record of the two identifiers
/// and the time.
pub fn record_vote<T>(
    request: &ComparisonRequest,
    winner: Option<T>,
    loser: Option<T>,
    now: i64,
) -> (r: Result<Vote<T>, VoteError>)
    ensures
        match vote_refusal(*request, winner, loser) {
            Some(error) => r == Err::<Vote<T>, VoteError>(error),
            None => r matches Ok(vote) && is_vote_of(vote, *request, winner->0, loser->0)
                && vote.event.time() == now,
        },
{
    let winner = match winner {
        Some(item) => item,
        None => {
            return Err(VoteError::WinnerNotFound);
        },
    };
    let loser = match loser {
        Some(item) => item,
        None => {
            return Err(VoteError::LoserNotFound);
        },
    };
    if request.winner_id == request.loser_id {
        return Err(VoteError::SameItem);
    }
    let event = ComparisonEvent {
        winner_item_id: request.winner_id.clone(),
        loser_item_id: request.loser_id.clone(),
        timestamp: now,
    };
    Ok(Vote { winner, loser, event })
}

/// Takes a vote now: as `record_vote`, at the time of a reading of the clock.
pub fn submit_vote<T>(
    request: &ComparisonRequest,
    winner: Option<T>,
    loser: Option<T>,
) -> (r: Result<Vote<T>, VoteError>)
    ensures
        match vote_refusal(*request, winner, loser) {
            Some(error) => r == Err::<Vote<T>, VoteError>(error),
            None => r matches Ok(vote) && is_vote_of(vote, *request, winner->0, loser->0) && 0
                <= vote.event.time() < CLOCK_BOUND,
        },
{
    let now = current_timestamp();
    record_vote(request, winner, loser, now)
}

} // verus!
