//! Which sprite shows where sprites overlap.

use vstd::prelude::*;
use crate::ppu::{insert_point, select_sprites, sort_by_x, PPU, Sprite};

verus! {

/// No sprite of `sprites` is to the left of one before it.
pub open spec fn ascending_by_x(sprites: Seq<Sprite>) -> bool {
    forall|i: int, j: int|
        0 <= i <= j < sprites.len() ==> (#[trigger] sprites[i]).pos_x <= (
        #[trigger] sprites[j]).pos_x
}

/// No sprite of `sprites` is to the right of one before it.
pub open spec fn descending_by_x(sprites: Seq<Sprite>) -> bool {
    forall|i: int, j: int|
        0 <= i <= j < sprites.len() ==> (#[trigger] sprites[i]).pos_x >= (
        #[trigger] sprites[j]).pos_x
}

/// The insertion point splits an ascending sequence into the sprites that are
/// not to the right of column `x` and those that are.
proof fn lemma_insert_point(sorted: Seq<Sprite>, x: int)
    requires
        ascending_by_x(sorted),
    ensures
        insert_point(sorted, x) <= sorted.len(),
        forall|i: int| 0 <= i < insert_point(sorted, x) ==> (#[trigger] sorted[i]).pos_x <= x,
        forall|i: int|
            insert_point(sorted, x) <= i < sorted.len() ==> (#[trigger] sorted[i]).pos_x > x,
    decreases sorted.len(),
{
    if sorted.len() > 0 {
        let front = sorted.drop_last();
        assert forall|i: int, j: int| 0 <= i <= j < front.len() implies (#[trigger] front[i]).pos_x
            <= (#[trigger] front[j]).pos_x by {
            assert(front[i] == sorted[i] && front[j] == sorted[j]);
        }
        lemma_insert_point(front, x);
        if sorted.last().pos_x > x {
            assert forall|i: int| 0 <= i < insert_point(sorted, x) implies (
            #[trigger] sorted[i]).pos_x <= x by {
                assert(sorted[i] == front[i]);
            }
            assert forall|i: int| insert_point(sorted, x) <= i < sorted.len() implies (
            #[trigger] sorted[i]).pos_x > x by {
                if i < front.len() {
                    assert(sorted[i] == front[i]);
                }
            }
        } else {
            assert forall|i: int| 0 <= i < sorted.len() implies (#[trigger] sorted[i]).pos_x
                <= x by {
                assert(sorted[i].pos_x <= sorted[sorted.len() - 1].pos_x);
            }
        }
    }
}

/// Sorting by column keeps the sprites, each as often as it was there, and
/// puts them in ascending order.
pub proof fn lemma_sort_by_x(sprites: Seq<Sprite>)
    ensures
        sort_by_x(sprites).len() == sprites.len(),
        ascending_by_x(sort_by_x(sprites)),
        forall|s: Sprite| #[trigger] sort_by_x(sprites).contains(s) <==> sprites.contains(s),
    decreases sprites.len(),
{
    if sprites.len() > 0 {
        let front = sprites.drop_last();
        let last = sprites.last();
        lemma_sort_by_x(front);
        let sorted = sort_by_x(front);
        let p = insert_point(sorted, last.pos_x as int) as int;
        lemma_insert_point(sorted, last.pos_x as int);
        sorted.insert_ensures(p, last);
        let result = sorted.insert(p, last);
        assert(result == sort_by_x(sprites));
        assert forall|i: int, j: int| 0 <= i <= j < result.len() implies (
        #[trigger] result[i]).pos_x <= (#[trigger] result[j]).pos_x by {
            if i < p {
                assert(result[i] == sorted[i]);
            } else if i > p {
                assert(result[i] == sorted[i - 1]);
            }
            if j < p {
                assert(result[j] == sorted[j]);
            } else if j > p {
                assert(result[j] == sorted[j - 1]);
            }
        }
        assert forall|s: Sprite| #[trigger] result.contains(s) <==> sprites.contains(s) by {
            if result.contains(s) {
                let i = choose|i: int| 0 <= i < result.len() && result[i] == s;
                if i == p {
                    assert(sprites[sprites.len() - 1] == s);
                } else {
                    let k = if i < p {
                        i
                    } else {
                        i - 1
                    };
                    assert(sorted[k] == s);
                    assert(sorted.contains(s));
                    assert(front.contains(s));
                    let m = choose|m: int| 0 <= m < front.len() && front[m] == s;
                    assert(sprites[m] == s);
                }
            }
            if sprites.contains(s) {
                let m = choose|m: int| 0 <= m < sprites.len() && sprites[m] == s;
                if m == sprites.len() - 1 {
                    assert(result[p] == s);
                } else {
                    assert(front[m] == s);
                    assert(front.contains(s));
                    assert(sorted.contains(s));
                    let k = choose|k: int| 0 <= k < sorted.len() && sorted[k] == s;
                    if k < p {
                        assert(result[k] == s);
                    } else {
                        assert(result[k + 1] == s);
                    }
                }
            }
        }
    }
}

/// The selection holds only cached sprites that have a row on the line, and
/// at most ten of them.
pub proof fn lemma_select_sprites(cache: Seq<Sprite>, ly: int, height: int, n: nat)
    requires
        n <= cache.len(),
    ensures
        select_sprites(cache, ly, height, n).len() <= 10,
        forall|s: Sprite| #[trigger]
            select_sprites(cache, ly, height, n).contains(s) ==> cache.contains(s)
                && s.covers_line(ly, height),
    decreases n,
{
    if n > 0 {
        lemma_select_sprites(cache, ly, height, (n - 1) as nat);
        let before = select_sprites(cache, ly, height, (n - 1) as nat);
        let now = select_sprites(cache, ly, height, n);
        assert forall|s: Sprite| #[trigger] now.contains(s) implies cache.contains(s)
            && s.covers_line(ly, height) by {
            let i = choose|i: int| 0 <= i < now.len() && now[i] == s;
            if i < before.len() {
                assert(before[i] == s);
                assert(before.contains(s));
            } else {
                assert(cache[n - 1] == s);
            }
        }
    }
}

impl PPU {
    /// The sprites are painted from right to left, and they are those that
    /// were selected for the line.
    pub proof fn lemma_paint_order(self)
        ensures
            descending_by_x(self.spec_sprites_on_line()),
            self.spec_sprites_on_line().len() <= 10,
            forall|s: Sprite| #[trigger]
                self.spec_sprites_on_line().contains(s) ==> self.sprite_cache@.contains(s)
                    && s.covers_line(
                    self.reg_ly as int,
                    self.reg_lcdc.spec_sprite_height() as int,
                ),
    {
        let ly = self.reg_ly as int;
        let height = self.reg_lcdc.spec_sprite_height() as int;
        let selected = select_sprites(self.sprite_cache@, ly, height, 40);
        let sorted = sort_by_x(selected);
        let order = self.spec_sprites_on_line();
        lemma_select_sprites(self.sprite_cache@, ly, height, 40);
        lemma_sort_by_x(selected);
        assert(order.len() == sorted.len());
        assert forall|i: int, j: int| 0 <= i <= j < order.len() implies (#[trigger] order[i]).pos_x
            >= (#[trigger] order[j]).pos_x by {
            assert(order[i] == sorted[sorted.len() - 1 - i]);
            assert(order[j] == sorted[sorted.len() - 1 - j]);
        }
        assert forall|s: Sprite| #[trigger] order.contains(s) implies self.sprite_cache@.contains(s)
            && s.covers_line(ly, height) by {
            let i = choose|i: int| 0 <= i < order.len() && order[i] == s;
            assert(sorted[sorted.len() - 1 - i] == s);
            assert(sorted.contains(s));
            assert(selected.contains(s));
        }
    }

    /// What painting the first `n` pixels of sprite `s` does to the pixel in
    /// column `x` of the current line: it gets the sprite's shade if one of
    /// those pixels lies there and is painted, and stays as it was otherwise.
    pub proof fn lemma_paint_sprite_pixel(self, s: Sprite, n: nat, x: int)
        requires
            self.reg_ly < 144,
            0 <= x < 160,
            n <= 8,
        ensures
            self.spec_paint_sprite(s, n).draw_buf[self.reg_ly * 160 + x] == (if 0 <= x - s.pos_x < n
                && self.sprite_paints(s, x - s.pos_x) {
                self.sprite_colour(s, x - s.pos_x)
            } else {
                self.draw_buf[self.reg_ly * 160 + x]
            }),
        decreases n,
    {
        if n > 0 {
            self.lemma_paint_sprite_pixel(s, (n - 1) as nat, x);
            self.lemma_paint_sprite_keeps(s, (n - 1) as nat);
            let before = self.spec_paint_sprite(s, (n - 1) as nat);
            assert(before.sprite_paints(s, n - 1) == self.sprite_paints(s, n - 1));
            assert(before.sprite_colour(s, n - 1) == self.sprite_colour(s, n - 1));
        }
    }

    /// What painting the first `k` sprites of `order` does to the pixel in
    /// column `x` when sprite `s` is among them, paints that pixel, and every
    /// other of them that paints it is further to the right: the pixel gets
    /// the shade of `s`.
    proof fn lemma_paint_winner(self, order: Seq<Sprite>, k: nat, s: Sprite, x: int)
        requires
            self.reg_ly < 144,
            0 <= x < 160,
            k <= order.len(),
            descending_by_x(order),
            exists|i: int| 0 <= i < k && order[i] == s,
            s.covers_column(x),
            self.sprite_paints(s, x - s.pos_x),
            forall|i: int|
                0 <= i < k && (#[trigger] order[i]).covers_column(x) && self.sprite_paints(
                    order[i],
                    x - order[i].pos_x,
                ) ==> order[i] == s || order[i].pos_x > s.pos_x,
        ensures
            self.spec_paint_sprites(order, k).draw_buf[self.reg_ly * 160 + x] == self.sprite_colour(
                s,
                x - s.pos_x,
            ),
        decreases k,
    {
        let top = order[k - 1];
        let before = self.spec_paint_sprites(order, (k - 1) as nat);
        self.lemma_paint_sprites_keeps(order, (k - 1) as nat);
        before.lemma_paint_sprite_pixel(top, 8, x);
        assert(before.sprite_paints(top, x - top.pos_x) == self.sprite_paints(top, x - top.pos_x));
        assert(before.sprite_colour(top, x - top.pos_x) == self.sprite_colour(top, x - top.pos_x));
        if top != s {
            let i = choose|i: int| 0 <= i < k && order[i] == s;
            assert(order[i].pos_x >= order[k - 1].pos_x);
            self.lemma_paint_winner(order, (k - 1) as nat, s, x);
        }
    }

    /// Where sprites overlap, the leftmost shows: if `s` is painted on the
    /// current line and paints the pixel in column `x`, and every other
    /// sprite painted on the line that paints this pixel is further to the
    /// right, then after the sprites are drawn the pixel has the shade of `s`.
    pub proof fn lemma_leftmost_sprite_wins(self, s: Sprite, x: int)
        requires
            self.reg_ly < 144,
            0 <= x < 160,
            self.spec_sprites_on_line().contains(s),
            s.covers_column(x),
            self.sprite_paints(s, x - s.pos_x),
            forall|t: Sprite|
                #![trigger self.spec_sprites_on_line().contains(t)]
                self.spec_sprites_on_line().contains(t) && t.covers_column(x)
                    && self.sprite_paints(t, x - t.pos_x) ==> t == s || t.pos_x > s.pos_x,
        ensures
            self.spec_draw_sprites().draw_buf[self.reg_ly * 160 + x] == self.sprite_colour(
                s,
                x - s.pos_x,
            ),
    {
        let order = self.spec_sprites_on_line();
        self.lemma_paint_order();
        assert forall|i: int|
            0 <= i < order.len() && (#[trigger] order[i]).covers_column(x) && self.sprite_paints(
                order[i],
                x - order[i].pos_x,
            ) implies order[i] == s || order[i].pos_x > s.pos_x by {
            assert(order.contains(order[i]));
        }
        self.lemma_paint_winner(order, order.len(), s, x);
    }
}

} // verus!
