use walk_the_dog::{
    draw_frame, plan_sprite_draw, Cell, DrawCommand, DrawError, LoadError, Rect, Sheet,
};

fn run_sheet() -> Sheet {
    let mut sheet = Sheet::new();
    sheet.insert("Run (1).png".to_string(), Cell { frame: Rect { x: 0, y: 0, w: 64, h: 64 } });
    sheet
}

#[test]
fn present_frames_give_their_exact_rect() {
    let mut sheet = run_sheet();
    sheet.insert("Idle (1).png".to_string(), Cell { frame: Rect { x: 129, y: 7, w: 117, h: 120 } });
    assert_eq!(sheet.len(), 2);
    assert_eq!(sheet.frame("Run (1).png").unwrap(), Rect { x: 0, y: 0, w: 64, h: 64 });
    assert_eq!(sheet.frame("Idle (1).png").unwrap(), Rect { x: 129, y: 7, w: 117, h: 120 });
    assert_eq!(sheet.get("Idle (1).png").unwrap().frame.w, 117);
}

#[test]
fn absent_frame_is_a_lookup_error() {
    let sheet = run_sheet();
    let err = sheet.frame("Does Not Exist.png").unwrap_err();
    assert_eq!(err.name, "Does Not Exist.png");
    assert!(Sheet::new().frame("Run (1).png").is_err());
}

#[test]
fn inserting_a_known_name_replaces_its_cell() {
    let mut sheet = run_sheet();
    sheet.insert("Run (1).png".to_string(), Cell { frame: Rect { x: 1, y: 2, w: 3, h: 4 } });
    assert_eq!(sheet.len(), 1);
    assert_eq!(sheet.frame("Run (1).png").unwrap(), Rect { x: 1, y: 2, w: 3, h: 4 });
}

#[test]
fn largest_rect_values_round_trip() {
    let mut sheet = Sheet::new();
    let big = Rect { x: u16::MAX, y: u16::MAX, w: u16::MAX, h: u16::MAX };
    sheet.insert("edge".to_string(), Cell { frame: big });
    assert_eq!(sheet.frame("edge").unwrap(), big);
    assert!(sheet.frame("").is_err());
}

#[test]
fn sheet_frame_is_drawn_unscaled_at_destination() {
    let sheet = run_sheet();
    let cmd = plan_sprite_draw(Ok(()), &sheet, "Run (1).png", 300, 300).unwrap();
    assert_eq!(
        cmd,
        DrawCommand::Clip {
            source: Rect { x: 0, y: 0, w: 64, h: 64 },
            dx: 300,
            dy: 300,
            dw: 64,
            dh: 64,
        }
    );
    assert_eq!(draw_frame(&sheet, "Run (1).png", 300, 300).unwrap(), cmd);
}

#[test]
fn missing_frame_draws_nothing() {
    let sheet = run_sheet();
    match plan_sprite_draw(Ok(()), &sheet, "Does Not Exist.png", 300, 300) {
        Err(DrawError::Lookup(e)) => assert_eq!(e.name, "Does Not Exist.png"),
        other => panic!("unexpected {:?}", other),
    }
    assert!(draw_frame(&sheet, "Does Not Exist.png", 0, 0).is_err());
}

#[test]
fn unloaded_sheet_image_draws_nothing() {
    let sheet = run_sheet();
    let loaded: Result<(), LoadError> = Err(LoadError::Failed("rhb.png".to_string()));
    assert!(matches!(
        plan_sprite_draw(loaded, &sheet, "Run (1).png", 300, 300),
        Err(DrawError::Load(LoadError::Failed(_)))
    ));
}
