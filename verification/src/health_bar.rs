//! Health bar geometry: the rectangles the rendering collaborator fills to
//! show an entity's health above it.

use vstd::prelude::*;
use crate::bounds::POS_LIMIT;
use crate::geometry::Rect;
use crate::health::Health;
use crate::motion::Point;
use crate::position::{center_pos_spec, CenterPosition};

verus! {

/// The bar's size in units.
pub const HEALTHBAR_WIDTH: i64 = 64_000;
pub const HEALTHBAR_HEIGHT: i64 = 8_000;

/// The background bar and the filled bar: both sit a bar's height above
/// the entity's draw anchor, the background at full width and the filled
/// part scaled by the health fraction, rounded down.
pub open spec fn health_bar_spec(anchor: Point, health: u16, max: u16) -> (Rect, Rect) {
    let x = anchor.x as int;
    let y = anchor.y - 2 * HEALTHBAR_HEIGHT;
    (
        Rect { x: x as i64, y: y as i64, w: HEALTHBAR_WIDTH, h: HEALTHBAR_HEIGHT },
        Rect {
            x: x as i64,
            y: y as i64,
            w: ((HEALTHBAR_WIDTH * health) / (max as int)) as i64,
            h: HEALTHBAR_HEIGHT,
        },
    )
}

/// An entity that shows a health bar: anything with health and a draw
/// anchor.
pub trait HealthBar: Health + CenterPosition {
    /// The background rectangle and the filled rectangle of the bar.
    fn health_bar(&self) -> (r: (Rect, Rect))
        requires
            self.pos_spec().wf(POS_LIMIT),
            self.extent_spec().wf(),
            Self::max_health_spec() >= 1,
        ensures
            r == health_bar_spec(
                center_pos_spec(self.pos_spec(), self.extent_spec()),
                self.health_spec(),
                Self::max_health_spec(),
            ),
    ;
}

impl<T: Health + CenterPosition> HealthBar for T {
    fn health_bar(&self) -> (r: (Rect, Rect)) {
        let anchor = self.center_pos();
        let health = self.health();
        let max = Self::max_health();
        let y = anchor.y - 2 * HEALTHBAR_HEIGHT;
        let filled = ((HEALTHBAR_WIDTH as u64) * (health as u64) / (max as u64)) as i64;
        (
            Rect { x: anchor.x, y, w: HEALTHBAR_WIDTH, h: HEALTHBAR_HEIGHT },
            Rect { x: anchor.x, y, w: filled, h: HEALTHBAR_HEIGHT },
        )
    }
}

} // verus!
