use skyshard::input::{Key, KeyAction, KeyStateFlags, Movement};

#[test]
#[allow(non_snake_case)]
fn test_MovementBitFlags() {
    let forward_left = KeyStateFlags::MOVE_FORWARD() | KeyStateFlags::STRAFE_LEFT();

    assert_eq!((forward_left - KeyStateFlags::STRAFE_LEFT()), KeyStateFlags::MOVE_FORWARD());
    assert_eq!((forward_left - KeyStateFlags::MOVE_FORWARD()), KeyStateFlags::STRAFE_LEFT());
    assert_eq!(
        (forward_left - (KeyStateFlags::MOVE_FORWARD() | KeyStateFlags::STRAFE_LEFT())),
        KeyStateFlags::NONE()
    );
}

#[test]
fn flag_values_are_single_bits() {
    assert_eq!(KeyStateFlags::NONE().bits(), 0);
    assert_eq!(KeyStateFlags::MOVE_FORWARD().bits(), 1);
    assert_eq!(KeyStateFlags::MOVE_BACKWARD().bits(), 2);
    assert_eq!(KeyStateFlags::STRAFE_LEFT().bits(), 4);
    assert_eq!(KeyStateFlags::STRAFE_RIGHT().bits(), 8);
    assert_eq!(KeyStateFlags::LOOK_LEFT().bits(), 16);
    assert_eq!(KeyStateFlags::LOOK_RIGHT().bits(), 32);
    assert_eq!(KeyStateFlags::LOOK_UP().bits(), 64);
    assert_eq!(KeyStateFlags::LOOK_DOWN().bits(), 128);
    assert_eq!(KeyStateFlags::FAST_MOVEMENT().bits(), 256);
    assert_eq!(KeyStateFlags::MOUSE_LOOK().bits(), 512);
    assert_eq!(KeyStateFlags::RESET_MOVEMENT().bits(), 1024);
}

#[test]
fn set_active_is_seen_by_is_active() {
    let mut flags = KeyStateFlags::NONE();
    flags.set_active(KeyAction::LookUp, true);
    assert!(flags.is_active(KeyAction::LookUp));
    assert!(!flags.is_active(KeyAction::LookDown));
    flags.set_active(KeyAction::LookDown, true);
    flags.set_active(KeyAction::LookUp, false);
    assert!(!flags.is_active(KeyAction::LookUp));
    assert!(flags.is_active(KeyAction::LookDown));
    assert_eq!(flags, KeyStateFlags::LOOK_DOWN());
}

#[test]
fn toggle_twice_restores() {
    let mut flags = KeyStateFlags::MOVE_FORWARD();
    flags.toggle_active(KeyAction::MouseLook);
    assert!(flags.is_active(KeyAction::MouseLook));
    assert!(flags.is_active(KeyAction::MoveForward));
    flags.toggle_active(KeyAction::MouseLook);
    assert_eq!(flags, KeyStateFlags::MOVE_FORWARD());
}

#[test]
fn insert_remove_contains() {
    let mut flags = KeyStateFlags::NONE();
    flags.insert(KeyStateFlags::STRAFE_RIGHT() | KeyStateFlags::LOOK_LEFT());
    assert!(flags.contains(KeyStateFlags::STRAFE_RIGHT()));
    assert!(flags.contains(KeyStateFlags::LOOK_LEFT() | KeyStateFlags::STRAFE_RIGHT()));
    assert!(!flags.contains(KeyStateFlags::LOOK_RIGHT() | KeyStateFlags::STRAFE_RIGHT()));
    flags.remove(KeyStateFlags::STRAFE_RIGHT());
    assert_eq!(flags, KeyStateFlags::LOOK_LEFT());
    assert!(!flags.is_empty());
    flags.remove(KeyStateFlags::LOOK_LEFT());
    assert!(flags.is_empty());
}

#[test]
fn keys_drive_the_actions() {
    let mut flags = KeyStateFlags::NONE();
    flags.handle_key(Key::W, true);
    flags.handle_key(Key::A, true);
    assert_eq!(flags, KeyStateFlags::MOVE_FORWARD() | KeyStateFlags::STRAFE_LEFT());
    flags.handle_key(Key::W, false);
    assert_eq!(flags, KeyStateFlags::STRAFE_LEFT());
    flags.handle_key(Key::Other, true);
    assert_eq!(flags, KeyStateFlags::STRAFE_LEFT());
    flags.handle_key(Key::R, true);
    assert!(flags.is_active(KeyAction::ResetMovement));
    flags.handle_key(Key::Up, true);
    flags.handle_key(Key::Down, true);
    flags.handle_key(Key::Left, true);
    flags.handle_key(Key::Right, true);
    flags.handle_key(Key::S, true);
    flags.handle_key(Key::D, true);
    assert_eq!(flags.bits(), 4 | 1024 | 64 | 128 | 16 | 32 | 2 | 8);
}

#[test]
fn space_press_flips_mouse_look() {
    let mut flags = KeyStateFlags::NONE();
    flags.handle_key(Key::Space, true);
    assert!(flags.is_active(KeyAction::MouseLook));
    flags.handle_key(Key::Space, false);
    assert!(flags.is_active(KeyAction::MouseLook));
    flags.handle_key(Key::Space, true);
    assert!(!flags.is_active(KeyAction::MouseLook));
}

#[test]
fn shift_makes_movement_fast() {
    let mut flags = KeyStateFlags::NONE();
    flags.handle_modifiers(true);
    assert_eq!(flags, KeyStateFlags::FAST_MOVEMENT());
    flags.handle_modifiers(false);
    assert_eq!(flags, KeyStateFlags::NONE());
}

#[test]
fn action_bits() {
    assert_eq!(KeyAction::MoveForward.bit(), 1);
    assert_eq!(KeyAction::ResetMovement.bit(), 1024);
    assert_eq!(KeyStateFlags::of(KeyAction::LookRight), KeyStateFlags::LOOK_RIGHT());
}

#[test]
fn all_flags_together_are_the_action_bits() {
    let all = KeyStateFlags::MOVE_FORWARD()
        | KeyStateFlags::MOVE_BACKWARD()
        | KeyStateFlags::STRAFE_LEFT()
        | KeyStateFlags::STRAFE_RIGHT()
        | KeyStateFlags::LOOK_LEFT()
        | KeyStateFlags::LOOK_RIGHT()
        | KeyStateFlags::LOOK_UP()
        | KeyStateFlags::LOOK_DOWN()
        | KeyStateFlags::FAST_MOVEMENT()
        | KeyStateFlags::MOUSE_LOOK()
        | KeyStateFlags::RESET_MOVEMENT();
    assert_eq!(all.bits(), 0x7ff);
    assert_eq!((all - KeyStateFlags::LOOK_UP()).bits(), 0x7ff & !64);
}

#[test]
fn movement_follows_the_active_actions() {
    assert_eq!(KeyStateFlags::NONE().movement(), Movement::Still);
    assert_eq!(KeyStateFlags::MOVE_FORWARD().movement(), Movement::Move);
    assert_eq!((KeyStateFlags::MOVE_FORWARD() | KeyStateFlags::RESET_MOVEMENT()).movement(), Movement::Reset);
    assert_eq!(KeyStateFlags::RESET_MOVEMENT().movement(), Movement::Reset);
}
