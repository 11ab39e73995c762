use mini_tracker::client::{
    default_game, find_definition, plan_for, plan_submission, quantity_from_input, with_status,
    FormError, ModelForm, Plan,
};
use mini_tracker::records::{Game, GameSummary, ModelDefinition, UserModelListItem};
use mini_tracker::status::Status;

fn definition(id: u128, name: &str, game_id: u128) -> ModelDefinition {
    ModelDefinition {
        id,
        name: name.to_string(),
        game: GameSummary { id: game_id, name: "Game".to_string() },
    }
}

fn form(name: &str, game_id: Option<u128>, quantity: i32) -> ModelForm {
    ModelForm { name: name.to_string(), game_id, quantity, status: Status::Unassembled }
}

fn item(id: u128, status: Status) -> UserModelListItem {
    UserModelListItem {
        id,
        model_name: "Empire Knights".to_string(),
        game_name: "The Old World".to_string(),
        quantity: 5,
        status,
    }
}

#[test]
fn form_errors_have_their_messages() {
    assert_eq!(FormError::NameRequired.message(), "Model name is required.");
    assert_eq!(FormError::GameRequired.message(), "Select a game.");
    assert_eq!(FormError::QuantityNotPositive.message(), "Quantity must be greater than 0.");
    assert_eq!(FormError::DefinitionsLoading.message(), "Model definitions are still loading.");
}

#[test]
fn a_form_is_held_to_its_rules_in_order() {
    let known = Vec::new();
    assert_eq!(plan_submission(&form("   ", None, 0), None), Err(FormError::NameRequired));
    assert_eq!(plan_submission(&form("", Some(1), 1), Some(&known)), Err(FormError::NameRequired));
    assert_eq!(plan_submission(&form("Knights", None, 0), None), Err(FormError::GameRequired));
    assert_eq!(
        plan_submission(&form("Knights", Some(1), 0), None),
        Err(FormError::QuantityNotPositive)
    );
    assert_eq!(
        plan_submission(&form("Knights", Some(1), -2), Some(&known)),
        Err(FormError::QuantityNotPositive)
    );
    assert_eq!(
        plan_submission(&form("Knights", Some(1), 1), None),
        Err(FormError::DefinitionsLoading)
    );
}

#[test]
fn an_unknown_model_is_registered_under_its_trimmed_name() {
    let known = vec![definition(10, "Knights", 2), definition(11, "Archers", 1)];
    assert_eq!(
        plan_submission(&form("  Knights \t", Some(1), 3), Some(&known)),
        Ok(Plan::Register { name: "Knights".to_string(), game_id: 1 })
    );
}

#[test]
fn a_known_model_is_reused() {
    let known =
        vec![definition(10, "Knights", 2), definition(11, "Knights", 1), definition(12, "Knights", 1)];
    assert_eq!(
        plan_submission(&form(" Knights", Some(1), 3), Some(&known)),
        Ok(Plan::Reuse { model_definition_id: 11 })
    );
}

#[test]
fn find_definition_gives_the_first_match() {
    let known =
        vec![definition(10, "Knights", 2), definition(11, "Knights", 1), definition(12, "Knights", 1)];
    assert_eq!(find_definition(&known, "Knights", 1), Some(1));
    assert_eq!(find_definition(&known, "Knights", 2), Some(0));
    assert_eq!(find_definition(&known, "Knights", 3), None);
    assert_eq!(find_definition(&known, "knights", 1), None);
    assert_eq!(find_definition(&Vec::new(), "Knights", 1), None);
}

#[test]
fn quantity_input_falls_back_to_one() {
    assert_eq!(quantity_from_input("12"), 12);
    assert_eq!(quantity_from_input("-3"), -3);
    assert_eq!(quantity_from_input("0"), 0);
    assert_eq!(quantity_from_input("+7"), 7);
    assert_eq!(quantity_from_input("2147483647"), i32::MAX);
    assert_eq!(quantity_from_input("2147483648"), 1);
    assert_eq!(quantity_from_input(""), 1);
    assert_eq!(quantity_from_input("abc"), 1);
    assert_eq!(quantity_from_input(" 5"), 1);
    assert_eq!(quantity_from_input("5.0"), 1);
    assert_eq!(quantity_from_input("-2147483648"), i32::MIN);
    assert_eq!(quantity_from_input("-"), 1);
}

#[test]
fn the_first_game_is_selected_by_default() {
    let games = vec![
        Game { id: 7, name: "Conquest".to_string(), created_at: "t1".to_string() },
        Game { id: 8, name: "Legion".to_string(), created_at: "t2".to_string() },
    ];
    assert_eq!(default_game(&games), Some(7));
    assert_eq!(default_game(&Vec::new()), None);
}

#[test]
fn a_status_change_shows_at_once() {
    let shown = vec![item(1, Status::Unassembled), item(2, Status::Assembled)];
    assert_eq!(
        with_status(&shown, 2, Status::Painted),
        Some(vec![item(1, Status::Unassembled), item(2, Status::Painted)])
    );
    assert_eq!(
        with_status(&shown, 1, Status::Unassembled),
        Some(vec![item(1, Status::Unassembled), item(2, Status::Assembled)])
    );
    assert_eq!(shown, vec![item(1, Status::Unassembled), item(2, Status::Assembled)]);
}

#[test]
fn a_status_change_of_an_unknown_item_shows_nothing() {
    let shown = vec![item(1, Status::Unassembled)];
    assert_eq!(with_status(&shown, 3, Status::Painted), None);
    assert_eq!(with_status(&Vec::new(), 3, Status::Painted), None);
}

#[test]
fn a_status_change_falls_on_the_first_item_of_that_identifier() {
    let shown = vec![item(1, Status::Unassembled), item(1, Status::Unassembled)];
    assert_eq!(
        with_status(&shown, 1, Status::Painted),
        Some(vec![item(1, Status::Painted), item(1, Status::Unassembled)])
    );
}

#[test]
fn a_trimmed_name_is_taken_as_it_is() {
    let known = vec![definition(10, "Knights", 1)];
    assert_eq!(
        plan_for("Knights".to_string(), Some(1), 3, Some(&known)),
        Ok(Plan::Reuse { model_definition_id: 10 })
    );
    assert_eq!(
        plan_for(" Knights".to_string(), Some(1), 3, Some(&known)),
        Ok(Plan::Register { name: " Knights".to_string(), game_id: 1 })
    );
    assert_eq!(plan_for(String::new(), Some(1), 3, Some(&known)), Err(FormError::NameRequired));
    assert_eq!(plan_for(" ".to_string(), None, 3, Some(&known)), Err(FormError::GameRequired));
    assert_eq!(
        plan_for("Knights".to_string(), Some(1), 0, Some(&known)),
        Err(FormError::QuantityNotPositive)
    );
    assert_eq!(
        plan_for("Knights".to_string(), Some(1), 3, None),
        Err(FormError::DefinitionsLoading)
    );
}

#[test]
fn white_space_of_every_kind_is_trimmed() {
    let known = Vec::new();
    assert_eq!(
        plan_submission(&form("\u{3000}\n Knights of the Realm\u{00a0}\r", Some(1), 3), Some(&known)),
        Ok(Plan::Register { name: "Knights of the Realm".to_string(), game_id: 1 })
    );
    assert_eq!(
        plan_submission(&form("\u{2003}\t", Some(1), 3), Some(&known)),
        Err(FormError::NameRequired)
    );
}
