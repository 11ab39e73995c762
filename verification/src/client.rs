//! What the browser client decides before it sends a request and after it
//! changed a status on screen.

use vstd::prelude::*;
use vstd::string::*;
use crate::records::{views, Game, ModelDefinition, UserModelListItem, UserModelListItemView};
use crate::number::{read_i32, written_i32};
use crate::status::Status;
use crate::text::same_text;

verus! {

/// What `str::trim` leaves of a text: the text without the white space at
/// its two ends.
pub uninterp spec fn trimmed(text: Seq<char>) -> Seq<char>;

/// Strips the white space from both ends of a text with `str::trim` and
/// copies what is left. The result depends on the text alone.
#[verifier::external_body]
fn trim(text: &str) -> (rest: String)
    ensures
        rest@ == trimmed(text@),
{
    text.trim().to_string()
}

/// The form with which a person adds models to the collection.
#[derive(Debug, PartialEq, Eq)]
pub struct ModelForm {
    /// The name of the model as typed.
    pub name: String,
    /// The game selected, if one is.
    pub game_id: Option<u128>,
    pub quantity: i32,
    pub status: Status,
}

/// Why a form cannot be sent.
#[derive(Clone, Copy, Debug, PartialEq, Eq, Structural)]
pub enum FormError {
    NameRequired,
    GameRequired,
    QuantityNotPositive,
    DefinitionsLoading,
}

impl FormError {
    /// The message shown beside the form.
    pub open spec fn text(self) -> Seq<char> {
        match self {
            FormError::NameRequired => "Model name is required."@,
            FormError::GameRequired => "Select a game."@,
            FormError::QuantityNotPositive => "Quantity must be greater than 0."@,
            FormError::DefinitionsLoading => "Model definitions are still loading."@,
        }
    }

    pub fn message(self) -> (text: &'static str)
        ensures
            text@ == self.text(),
    {
        match self {
            FormError::NameRequired => "Model name is required.",
            FormError::GameRequired => "Select a game.",
            FormError::QuantityNotPositive => "Quantity must be greater than 0.",
            FormError::DefinitionsLoading => "Model definitions are still loading.",
        }
    }
}

/// What sending a form starts with.
#[derive(Debug, PartialEq, Eq)]
pub enum Plan {
    /// A model definition of that name under that game is known: record
    /// the models under it.
    Reuse { model_definition_id: u128 },
    /// No such model definition is known: register it first.
    Register { name: String, game_id: u128 },
}

pub enum PlanView {
    Reuse { model_definition_id: u128 },
    Register { name: Seq<char>, game_id: u128 },
}

impl View for Plan {
    type V = PlanView;

    open spec fn view(&self) -> PlanView {
        match *self {
            Plan::Reuse { model_definition_id } => PlanView::Reuse { model_definition_id },
            Plan::Register { name, game_id } => PlanView::Register { name: name@, game_id },
        }
    }
}

/// The definition at place `at` has this name and belongs to this game.
pub open spec fn matches_at(
    definitions: Seq<ModelDefinition>,
    at: int,
    name: Seq<char>,
    game_id: u128,
) -> bool {
    0 <= at < definitions.len() && definitions[at].name@ == name && definitions[at].game.id
        == game_id
}

/// The place of the first definition with this name under this game, or
/// the number of definitions where there is none.
pub open spec fn first_match(definitions: Seq<ModelDefinition>, name: Seq<char>, game_id: u128) -> int
    decreases definitions.len(),
{
    if definitions.len() == 0 {
        0
    } else if definitions[0].name@ == name && definitions[0].game.id == game_id {
        0
    } else {
        1 + first_match(definitions.drop_first(), name, game_id)
    }
}

/// What the client does with a form whose name has lost the white space
/// at its ends: the first of its rules that the form breaks, or the plan
/// for sending it.
pub open spec fn planned_for(
    name: Seq<char>,
    game_id: Option<u128>,
    quantity: i32,
    definitions: Option<Seq<ModelDefinition>>,
) -> Result<PlanView, FormError> {
    if name.len() == 0 {
        Err(FormError::NameRequired)
    } else if game_id is None {
        Err(FormError::GameRequired)
    } else if quantity <= 0 {
        Err(FormError::QuantityNotPositive)
    } else if definitions is None {
        Err(FormError::DefinitionsLoading)
    } else {
        let known = definitions->Some_0;
        let at = first_match(known, name, game_id->Some_0);
        if at < known.len() {
            Ok(PlanView::Reuse { model_definition_id: known[at].id })
        } else {
            Ok(PlanView::Register { name, game_id: game_id->Some_0 })
        }
    }
}

/// What the client does with a form as typed. The name counts without the
/// white space at its ends.
pub open spec fn planned(
    name: Seq<char>,
    game_id: Option<u128>,
    quantity: i32,
    definitions: Option<Seq<ModelDefinition>>,
) -> Result<PlanView, FormError> {
    planned_for(trimmed(name), game_id, quantity, definitions)
}

/// A result with the view of its plan in place of the plan.
pub open spec fn seen_plan(result: Result<Plan, FormError>) -> Result<PlanView, FormError> {
    match result {
        Ok(plan) => Ok(plan@),
        Err(error) => Err(error),
    }
}

/// The list that a borrowed list stands for.
pub open spec fn known(definitions: Option<&Vec<ModelDefinition>>) -> Option<
    Seq<ModelDefinition>,
> {
    match definitions {
        Some(list) => Some(list@),
        None => None,
    }
}

/// The first match lies within the list or at its end; it is a match where
/// it lies within the list, and nothing before it is one.
pub proof fn lemma_first_match(definitions: Seq<ModelDefinition>, name: Seq<char>, game_id: u128)
    ensures
        0 <= first_match(definitions, name, game_id) <= definitions.len(),
        first_match(definitions, name, game_id) < definitions.len() ==> matches_at(
            definitions,
            first_match(definitions, name, game_id),
            name,
            game_id,
        ),
        forall|at: int|
            0 <= at < first_match(definitions, name, game_id) ==> !matches_at(
                definitions,
                at,
                name,
                game_id,
            ),
    decreases definitions.len(),
{
    if definitions.len() > 0 && !(definitions[0].name@ == name && definitions[0].game.id
        == game_id) {
        let rest = definitions.drop_first();
        lemma_first_match(rest, name, game_id);
        assert forall|at: int| 0 <= at < first_match(definitions, name, game_id) implies
            !matches_at(definitions, at, name, game_id) by {
            if at > 0 {
                assert(!matches_at(rest, at - 1, name, game_id));
                assert(rest[at - 1] == definitions[at]);
            }
        }
        let found = first_match(rest, name, game_id);
        if found < rest.len() {
            assert(rest[found] == definitions[found + 1]);
        }
    }
}

/// Looks for a model definition of this name under this game among those
/// that the client knows: the first in the list, if there is one.
pub fn find_definition(definitions: &Vec<ModelDefinition>, name: &str, game_id: u128) -> (found:
    Option<usize>)
    ensures
        match found {
            Some(at) => at == first_match(definitions@, name@, game_id) && matches_at(
                definitions@,
                at as int,
                name@,
                game_id,
            ) && forall|before: int|
                0 <= before < at ==> !matches_at(definitions@, before, name@, game_id),
            None => first_match(definitions@, name@, game_id) == definitions@.len() && forall|
                at: int,
            | !matches_at(definitions@, at, name@, game_id),
        },
{
    let mut at: usize = 0;
    proof {
        assert(definitions@.skip(0) =~= definitions@);
    }
    while at < definitions.len()
        invariant
            at <= definitions@.len(),
            first_match(definitions@, name@, game_id) == at + first_match(
                definitions@.skip(at as int),
                name@,
                game_id,
            ),
        decreases definitions@.len() - at,
    {
        let definition = &definitions[at];
        if definition.game.id == game_id && same_text(definition.name.as_str(), name) {
            proof {
                lemma_first_match(definitions@, name@, game_id);
            }
            return Some(at);
        }
        proof {
            assert(definitions@.skip(at as int).drop_first() =~= definitions@.skip(at + 1));
        }
        at += 1;
    }
    proof {
        lemma_first_match(definitions@, name@, game_id);
    }
    None
}

/// Decides what to do with a form whose name has lost the white space at
/// its ends. `definitions` are the model definitions that the client has
/// loaded, or `None` while it has none yet.
pub fn plan_for(
    name: String,
    game_id: Option<u128>,
    quantity: i32,
    definitions: Option<&Vec<ModelDefinition>>,
) -> (result: Result<Plan, FormError>)
    ensures
        seen_plan(result) == planned_for(name@, game_id, quantity, known(definitions)),
{
    if name.as_str().is_empty() {
        return Err(FormError::NameRequired);
    }
    let game_id = match game_id {
        Some(game_id) => game_id,
        None => {
            return Err(FormError::GameRequired);
        },
    };
    if quantity <= 0 {
        return Err(FormError::QuantityNotPositive);
    }
    let list = match definitions {
        Some(list) => list,
        None => {
            return Err(FormError::DefinitionsLoading);
        },
    };
    match find_definition(list, name.as_str(), game_id) {
        Some(at) => Ok(Plan::Reuse { model_definition_id: list[at].id }),
        None => Ok(Plan::Register { name, game_id }),
    }
}

/// Decides what to do with a form as typed.
pub fn plan_submission(form: &ModelForm, definitions: Option<&Vec<ModelDefinition>>) -> (result:
    Result<Plan, FormError>)
    ensures
        seen_plan(result) == planned(form.name@, form.game_id, form.quantity, known(definitions)),
{
    plan_for(trim(form.name.as_str()), form.game_id, form.quantity, definitions)
}

/// The quantity that the quantity field stands for: the number typed, or 1
/// where what was typed is no number.
pub fn quantity_from_input(text: &str) -> (quantity: i32)
    ensures
        quantity == match written_i32(text@) {
            Some(number) => number,
            None => 1i32,
        },
{
    match read_i32(text) {
        Some(number) => number,
        None => 1,
    }
}

/// The game that the form selects before a person chose one: the first
/// game listed.
pub fn default_game(games: &Vec<Game>) -> (id: Option<u128>)
    ensures
        id == if games@.len() == 0 {
            None::<u128>
        } else {
            Some(games@[0].id)
        },
{
    if games.len() == 0 {
        None
    } else {
        Some(games[0].id)
    }
}

/// The list as shown once the status of a user model was changed on screen:
/// the first item with this identifier has the new status and nothing else
/// differs. `None` where no item has this identifier: then nothing is shown
/// anew and nothing is sent.
pub open spec fn shown_with_status(
    models: Seq<UserModelListItemView>,
    id: u128,
    status: Status,
) -> Option<Seq<UserModelListItemView>>
    decreases models.len(),
{
    if models.len() == 0 {
        None
    } else if models[0].id == id {
        Some(models.update(0, UserModelListItemView { status, ..models[0] }))
    } else {
        match shown_with_status(models.drop_first(), id, status) {
            Some(rest) => Some(seq![models[0]] + rest),
            None => None,
        }
    }
}

/// Changes the status of a user model in the list on screen, ahead of the
/// service's answer. The list that was shown before stays with the caller,
/// who puts it back if the service refuses the change.
pub fn with_status(models: &Vec<UserModelListItem>, id: u128, status: Status) -> (shown: Option<
    Vec<UserModelListItem>,
>)
    ensures
        match shown {
            Some(list) => Some(views(list@)),
            None => None,
        } == shown_with_status(views(models@), id, status),
{
    let mut list: Vec<UserModelListItem> = Vec::new();
    let mut found = false;
    let mut at: usize = 0;
    proof {
        assert(views(models@).skip(0) =~= views(models@));
        assert(views(list@) =~= Seq::<UserModelListItemView>::empty());
    }
    while at < models.len()
        invariant
            at <= models@.len(),
            views(list@) =~= if found {
                shown_with_status(views(models@).take(at as int), id, status)->Some_0
            } else {
                views(models@).take(at as int)
            },
            found ==> shown_with_status(views(models@).take(at as int), id, status) is Some,
            !found ==> shown_with_status(views(models@).take(at as int), id, status) is None,
        decreases models@.len() - at,
    {
        let item = &models[at];
        let ghost front = views(models@).take(at as int);
        let ghost next = views(models@).take(at + 1);
        proof {
            assert(next =~= front.push(item@));
        }
        if !found && item.id == id {
            let changed = UserModelListItem {
                id: item.id,
                model_name: item.model_name.clone(),
                game_name: item.game_name.clone(),
                quantity: item.quantity,
                status,
            };
            proof {
                lemma_first_change(front, item@, id, status);
                assert(views(list@.push(changed)) =~= views(list@).push(changed@));
            }
            list.push(changed);
            found = true;
        } else {
            let same = item.clone();
            proof {
                lemma_later_items_stay(front, item@, id, status);
                assert(views(list@.push(same)) =~= views(list@).push(same@));
            }
            list.push(same);
        }
        at += 1;
    }
    proof {
        assert(views(models@).take(at as int) =~= views(models@));
    }
    if found {
        Some(list)
    } else {
        None
    }
}

/// Where no item of a list has the identifier and the next one has, the
/// change falls on that next item.
pub proof fn lemma_first_change(
    front: Seq<UserModelListItemView>,
    item: UserModelListItemView,
    id: u128,
    status: Status,
)
    requires
        shown_with_status(front, id, status) is None,
        item.id == id,
    ensures
        shown_with_status(front.push(item), id, status) == Some(
            front.push(UserModelListItemView { status, ..item }),
        ),
    decreases front.len(),
{
    let whole = front.push(item);
    if front.len() == 0 {
        assert(whole.update(0, UserModelListItemView { status, ..item }) =~= front.push(
            UserModelListItemView { status, ..item },
        ));
    } else {
        assert(whole.drop_first() =~= front.drop_first().push(item));
        lemma_first_change(front.drop_first(), item, id, status);
        assert(seq![whole[0]] + front.drop_first().push(
            UserModelListItemView { status, ..item },
        ) =~= front.push(UserModelListItemView { status, ..item }));
    }
}

/// An item behind the one that changed, or one with another identifier,
/// stays as it is.
pub proof fn lemma_later_items_stay(
    front: Seq<UserModelListItemView>,
    item: UserModelListItemView,
    id: u128,
    status: Status,
)
    requires
        shown_with_status(front, id, status) is Some || item.id != id,
    ensures
        shown_with_status(front.push(item), id, status) == match shown_with_status(
            front,
            id,
            status,
        ) {
            Some(shown) => Some(shown.push(item)),
            None => None,
        },
    decreases front.len(),
{
    let whole = front.push(item);
    if front.len() == 0 {
        assert(whole.drop_first() =~= Seq::<UserModelListItemView>::empty());
        assert(shown_with_status(whole.drop_first(), id, status) is None);
    } else if front[0].id == id {
        assert(whole[0] == front[0]);
        assert(whole.update(0, UserModelListItemView { status, ..whole[0] }) =~= front.update(
            0,
            UserModelListItemView { status, ..front[0] },
        ).push(item));
    } else {
        assert(whole[0] == front[0]);
        assert(whole.drop_first() =~= front.drop_first().push(item));
        lemma_later_items_stay(front.drop_first(), item, id, status);
        match shown_with_status(front.drop_first(), id, status) {
            Some(rest) => {
                assert(seq![whole[0]] + rest.push(item) =~= (seq![front[0]] + rest).push(item));
            },
            None => {},
        }
    }
}

} // verus!
