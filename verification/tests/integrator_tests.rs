use raytracer::integrator::{bounce_action, continue_path, BounceAction, BounceEvent};

#[test]
fn exhausted_depth_ends_the_path() {
    assert!(!continue_path(0));
    assert!(continue_path(1));
    assert!(continue_path(200));
}

#[test]
fn a_miss_returns_the_background() {
    assert_eq!(bounce_action(5, BounceEvent::Miss), BounceAction::Background);
}

#[test]
fn an_emitter_returns_its_emission_alone() {
    assert_eq!(
        bounce_action(5, BounceEvent::NoScatter),
        BounceAction::EmissionOnly
    );
}

#[test]
fn a_specular_bounce_recurses_one_level_deeper() {
    assert_eq!(
        bounce_action(5, BounceEvent::Specular),
        BounceAction::SpecularBounce { next_depth: 4 }
    );
    assert_eq!(
        bounce_action(1, BounceEvent::Specular),
        BounceAction::SpecularBounce { next_depth: 0 }
    );
}

#[test]
fn a_diffuse_bounce_recurses_when_the_density_is_positive() {
    assert_eq!(
        bounce_action(
            7,
            BounceEvent::Scatter {
                density_positive: true
            }
        ),
        BounceAction::MixtureBounce { next_depth: 6 }
    );
}

#[test]
fn a_zero_density_bounce_contributes_only_the_emission() {
    assert_eq!(
        bounce_action(
            7,
            BounceEvent::Scatter {
                density_positive: false
            }
        ),
        BounceAction::EmissionOnly
    );
}
