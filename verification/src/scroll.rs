//! How far the transcript is scrolled.

use crate::state::ScrollView;
use vstd::prelude::*;

verus! {

impl ScrollView {
    /// Max transcript scroll offset from the last paint (0 = everything fits).
    pub open spec fn max_off(self) -> int {
        let shown = if self.last_body_h == 0 {
            1
        } else {
            self.last_body_h as int
        };
        if self.last_body_wrapped <= shown {
            0
        } else {
            self.last_body_wrapped - shown
        }
    }

    /// The offset that a scroll starts from.
    pub open spec fn current_off(self) -> int {
        if self.transcript_follow || self.transcript_rowoff >= self.max_off() {
            self.max_off()
        } else {
            self.transcript_rowoff as int
        }
    }

    /// Scrolled by `delta` wrapped lines (negative = up / older): free until
    /// the bottom, then following again.
    pub open spec fn scrolled(self, delta: int) -> ScrollView {
        let wanted = self.current_off() + delta;
        let next = if wanted < 0 {
            0
        } else if wanted > self.max_off() {
            self.max_off()
        } else {
            wanted
        };
        ScrollView {
            transcript_rowoff: next as usize,
            transcript_follow: next >= self.max_off(),
            ..self
        }
    }

    /// After a paint of `wrapped` lines in `height` rows: pinned to the bottom
    /// while following, else where it was, cut to what there is.
    pub open spec fn repainted(self, height: usize, wrapped: usize) -> ScrollView {
        let sized = ScrollView { last_body_h: height, last_body_wrapped: wrapped, ..self };
        ScrollView {
            transcript_rowoff: sized.current_off() as usize,
            transcript_follow: sized.current_off() == sized.max_off(),
            ..sized
        }
    }

    /// Lines in a page.
    pub open spec fn page(self) -> int {
        if self.last_body_h == 0 {
            0
        } else {
            self.last_body_h - 1
        }
    }

    /// Lines in half a page.
    pub open spec fn half_page(self) -> int {
        if self.last_body_h <= 3 {
            1
        } else {
            (self.last_body_h / 2) as int
        }
    }
}

/// Scrolling stays within the transcript, and follows new output just where
/// it has reached the bottom.
pub proof fn law_scroll_stays_in_bounds(s: ScrollView, delta: int)
    ensures
        0 <= s.scrolled(delta).transcript_rowoff <= s.max_off(),
        s.scrolled(delta).max_off() == s.max_off(),
        s.scrolled(delta).transcript_follow <==> s.scrolled(delta).transcript_rowoff
            == s.max_off(),
{
}

/// Scrolling up and down again by as much comes back to where it was, as long
/// as it does not run into the top.
pub proof fn law_scroll_comes_back(s: ScrollView, n: int)
    requires
        0 <= n <= s.current_off(),
    ensures
        s.scrolled(-n).scrolled(n).transcript_rowoff == s.current_off(),
{
}

/// A paint leaves the offset within the transcript and follows just where it
/// shows the bottom; painting the same again changes nothing.
pub proof fn law_paint_settles(s: ScrollView, height: usize, wrapped: usize)
    ensures
        s.repainted(height, wrapped).transcript_rowoff <= s.repainted(height, wrapped).max_off(),
        s.repainted(height, wrapped).transcript_follow <==> s.repainted(
            height,
            wrapped,
        ).transcript_rowoff == s.repainted(height, wrapped).max_off(),
        s.repainted(height, wrapped).repainted(height, wrapped) == s.repainted(height, wrapped),
{
}

/// While the transcript follows, every paint shows its bottom.
pub proof fn law_following_shows_the_bottom(s: ScrollView, height: usize, wrapped: usize)
    requires
        s.transcript_follow,
    ensures
        s.repainted(height, wrapped).transcript_follow,
        s.repainted(height, wrapped).transcript_rowoff == s.repainted(height, wrapped).max_off(),
{
}

} // verus!
