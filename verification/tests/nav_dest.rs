use textquest_dll::hooks::game_loop::nav_dest::{parse_nav_destination_command, NavDestination};

#[test]
fn nav_destination_parser_supports_target_and_object_modes() {
    assert_eq!(parse_nav_destination_command("/nav target"), Some(Ok(NavDestination::Target)));
    assert_eq!(parse_nav_destination_command("/nav to target"), Some(Ok(NavDestination::Target)));
    assert_eq!(parse_nav_destination_command("/nav door"), Some(Ok(NavDestination::Door)));
    assert_eq!(parse_nav_destination_command("/nav to door click"), Some(Ok(NavDestination::Door)));
    assert_eq!(parse_nav_destination_command("/nav item"), Some(Ok(NavDestination::Item)));
    assert_eq!(parse_nav_destination_command("/nav to item click"), Some(Ok(NavDestination::Item)));
}

#[test]
fn nav_destination_parser_ignores_non_destination_nav_commands() {
    assert_eq!(parse_nav_destination_command("/nav reload"), None);
    assert_eq!(parse_nav_destination_command("/nav waypoint save camp"), None);
    assert_eq!(parse_nav_destination_command("/nav to guildlobby"), None);
    assert_eq!(parse_nav_destination_command("/follow tank"), None);
}

#[test]
fn nav_destination_loc_keeps_coordinates_in_mq2_order() {
    assert_eq!(
        parse_nav_destination_command("/nav loc 200 100 10"),
        Some(Ok(NavDestination::Loc { y: "200".to_string(), x: "100".to_string(), z: "10".to_string() }))
    );
    assert_eq!(
        parse_nav_destination_command("/nav to loc -25.5 13.25 7"),
        Some(Ok(NavDestination::Loc { y: "-25.5".to_string(), x: "13.25".to_string(), z: "7".to_string() }))
    );
}

#[test]
fn nav_destination_loc_needs_three_coordinates() {
    assert_eq!(
        parse_nav_destination_command("/nav loc 100 200"),
        Some(Err("loc navigation requires coordinates in `/nav loc Y X Z` order".to_string()))
    );
}

#[test]
fn nav_destination_target_takes_no_arguments() {
    assert_eq!(
        parse_nav_destination_command("/nav target now"),
        Some(Err("target navigation does not accept extra arguments".to_string()))
    );
    assert_eq!(parse_nav_destination_command("/nav door open"), None);
    assert_eq!(parse_nav_destination_command("/nav"), None);
}
