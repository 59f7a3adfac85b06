use timeline::animation_strategy::{get_classes, Css, Strategy};
use timeline::line_components::{job_class, leg_class};

fn pair(a: &str, b: &str) -> (String, String) {
    (a.to_string(), b.to_string())
}

fn triple(a: &str, b: &str, c: &str) -> (String, String, String) {
    (a.to_string(), b.to_string(), c.to_string())
}

#[test]
fn parts_of_each_strategy() {
    assert_eq!(Strategy::Off.parts(), (Css::Off, Css::Off));
    assert_eq!(Strategy::Transform.parts(), (Css::Transform, Css::Off));
    assert_eq!(Strategy::Transition.parts(), (Css::Transition, Css::Off));
    assert_eq!(Strategy::ScaleAndSlide.parts(), (Css::Keyframes, Css::Keyframes));
}

#[test]
fn stretch_classes_of_each_technique() {
    assert_eq!(Css::Off.stretch_classes(), pair("", ""));
    assert_eq!(Css::Keyframes.stretch_classes(), pair("", " stretch-keyframes"));
    assert_eq!(
        Css::Transform.stretch_classes(),
        pair(" stretch-transform-base", " stretch-transform")
    );
    assert_eq!(
        Css::Transition.stretch_classes(),
        pair(" stretch-transition-base", " stretch-transition")
    );
}

#[test]
fn push_classes_of_each_technique() {
    assert_eq!(Css::Off.push_classes(), pair("", ""));
    assert_eq!(Css::Keyframes.push_classes(), pair("", " push-keyframes"));
    assert_eq!(Css::Transform.push_classes(), pair(" push-transform-base", " push-transform"));
    assert_eq!(Css::Transition.push_classes(), pair(" push-transition-base", " push-transition"));
}

#[test]
fn no_technique_gives_empty_hints() {
    assert_eq!(get_classes(Strategy::Off), triple("", "", ""));
}

#[test]
fn classes_of_each_strategy() {
    assert_eq!(
        get_classes(Strategy::Transform),
        triple(" stretch-transform-base", " stretch-transform", " stretch-transform-base")
    );
    assert_eq!(
        get_classes(Strategy::Transition),
        triple(" stretch-transition-base", " stretch-transition", " stretch-transition-base")
    );
    assert_eq!(
        get_classes(Strategy::ScaleAndSlide),
        triple("", " stretch-keyframes", " push-keyframes")
    );
}

#[test]
fn resolver_gives_the_same_hints_each_time() {
    for strategy in [
        Strategy::Off,
        Strategy::Transform,
        Strategy::Transition,
        Strategy::ScaleAndSlide,
    ] {
        assert_eq!(get_classes(strategy), get_classes(strategy));
        for stretch in [false, true] {
            for push in [false, true] {
                assert_eq!(
                    leg_class(stretch, push, strategy),
                    leg_class(stretch, push, strategy)
                );
                assert_eq!(job_class(push, strategy), job_class(push, strategy));
            }
        }
    }
}

#[test]
fn job_class_by_flag_and_strategy() {
    assert_eq!(job_class(false, Strategy::Off), "job");
    assert_eq!(job_class(true, Strategy::Off), "job");
    assert_eq!(job_class(false, Strategy::Transform), "job");
    assert_eq!(job_class(true, Strategy::Transition), "job");
    assert_eq!(job_class(false, Strategy::ScaleAndSlide), "job");
    assert_eq!(job_class(true, Strategy::ScaleAndSlide), "job push-keyframes");
}

#[test]
fn leg_class_by_flags_and_strategy() {
    assert_eq!(leg_class(false, false, Strategy::Off), "leg");
    assert_eq!(leg_class(true, true, Strategy::Off), "leg");
    assert_eq!(leg_class(false, false, Strategy::Transform), "leg stretch-transform-base");
    assert_eq!(
        leg_class(true, false, Strategy::Transform),
        "leg stretch-transform-base stretch-transform"
    );
    assert_eq!(
        leg_class(false, true, Strategy::Transform),
        "leg stretch-transform-base stretch-transform-base"
    );
    assert_eq!(
        leg_class(true, false, Strategy::Transition),
        "leg stretch-transition-base stretch-transition"
    );
    assert_eq!(leg_class(false, false, Strategy::ScaleAndSlide), "leg");
    assert_eq!(leg_class(true, false, Strategy::ScaleAndSlide), "leg stretch-keyframes");
    assert_eq!(leg_class(false, true, Strategy::ScaleAndSlide), "leg push-keyframes");
}

#[test]
fn a_stretched_leg_shows_as_stretched_though_pushed() {
    assert_eq!(leg_class(true, true, Strategy::ScaleAndSlide), "leg stretch-keyframes");
}
