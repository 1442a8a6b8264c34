use editor_status::input_modes::InputModes;

#[test]
fn vim_toggle_turns_vim_on_and_helix_off() {
    let mut m = InputModes { vim: false, helix: true };
    m.toggle_vim();
    assert_eq!(m, InputModes { vim: true, helix: false });
}

#[test]
fn vim_toggle_turns_vim_off() {
    let mut m = InputModes { vim: true, helix: false };
    m.toggle_vim();
    assert_eq!(m, InputModes { vim: false, helix: false });
}

#[test]
fn helix_toggle_turns_helix_on_and_vim_off() {
    let mut m = InputModes { vim: true, helix: false };
    m.toggle_helix();
    assert_eq!(m, InputModes { vim: false, helix: true });
}

#[test]
fn helix_toggle_turns_helix_off() {
    let mut m = InputModes { vim: false, helix: true };
    m.toggle_helix();
    assert_eq!(m, InputModes { vim: false, helix: false });
}

#[test]
fn toggles_never_leave_both_modes_on() {
    let starts = [
        InputModes { vim: false, helix: false },
        InputModes { vim: true, helix: false },
        InputModes { vim: false, helix: true },
    ];
    for start in starts {
        let mut a = start;
        a.toggle_vim();
        assert!(!(a.vim && a.helix));
        let mut b = start;
        b.toggle_helix();
        assert!(!(b.vim && b.helix));
    }
}
