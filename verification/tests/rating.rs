use elo::{Elo, EloRanking, Scalar};

/// Single-precision arithmetic.
#[derive(Clone, Copy, Debug, PartialEq)]
struct Single(f32);

impl Scalar for Single {
    fn from_count(n: usize) -> Single {
        Single(n as f32)
    }

    fn plus(self, rhs: Single) -> Single {
        Single(self.0 + rhs.0)
    }

    fn minus(self, rhs: Single) -> Single {
        Single(self.0 - rhs.0)
    }

    fn times(self, rhs: Single) -> Single {
        Single(self.0 * rhs.0)
    }

    fn divided_by(self, rhs: Single) -> Single {
        Single(self.0 / rhs.0)
    }

    fn negated(self) -> Single {
        Single(-self.0)
    }

    fn raised_to(self, exponent: Single) -> Single {
        Single(self.0.powf(exponent.0))
    }
}

struct RatingObject {
    rating: f32,
}

impl RatingObject {
    pub fn new() -> RatingObject {
        return RatingObject { rating: 1400f32 };
    }
}

impl Elo for RatingObject {
    type Rating = Single;

    fn get_rating(&self) -> Single {
        return Single(self.rating);
    }

    fn change_rating(&mut self, rating: Single) {
        self.rating += rating.0;
    }
}

#[test]
fn rating() {
    let mut player_one = RatingObject::new();
    let mut player_two = RatingObject::new();
    let rating_system = EloRanking::new(32);
    assert_eq!(1400f32, player_one.get_rating().0);
    assert_eq!(1400f32, player_two.get_rating().0);
    player_one.change_rating(Single(100f32));
    assert_eq!(1500f32, player_one.get_rating().0);
    player_one.change_rating(Single(-100f32));
    assert_eq!(1400f32, player_one.get_rating().0);
    // In a tie, the ratings should stay the same.
    rating_system.tie::<RatingObject>(&mut player_one, &mut player_two);
    assert_eq!(1400f32, player_one.get_rating().0);
    assert_eq!(1400f32, player_two.get_rating().0);
    // With a win, player_one should gain an advantage.
    rating_system.win::<RatingObject>(&mut player_one, &mut player_two);
    assert_eq!(1416f32, player_one.get_rating().0);
    assert_eq!(1384f32, player_two.get_rating().0);
    // With a loss, this should reset to normal.
    rating_system.loss::<RatingObject>(&mut player_one, &mut player_two);
    assert_eq!(1398.5305f32, player_one.get_rating().0);
    assert_eq!(1401.4695f32, player_two.get_rating().0);
}
