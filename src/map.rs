use vstd::prelude::*;

verus! {

/// One cell of the world grid.
#[derive(Clone, Copy, Debug, PartialEq, Eq, Structural)]
pub enum Tile {
    Wall,
    Grass,
    Water,
}

/// Number of rows of the grid built for `height`: a top and a bottom wall
/// row always exist, so a height of one still yields two rows.
pub open spec fn row_count(height: nat) -> nat {
    if height < 2 {
        2
    } else {
        height
    }
}

/// Number of grass/water pairs between the two walls of an inner row.
pub open spec fn pair_count(width: nat) -> nat {
    let k = (width as int - 1) / 2;
    if k >= 1 {
        (k - 1) as nat
    } else {
        0
    }
}

/// Length of row `y`: the outer rows span the full width, an inner row is a
/// wall, its grass/water pairs and a closing wall.
pub open spec fn row_len(height: nat, width: nat, y: int) -> nat {
    if y == 0 || y == row_count(height) - 1 {
        width
    } else {
        2 + 2 * pair_count(width)
    }
}

/// The tile at column `x` of row `y`.
pub open spec fn tile_at(height: nat, width: nat, y: int, x: int) -> Tile {
    if y == 0 || y == row_count(height) - 1 {
        Tile::Wall
    } else if x == 0 || x == row_len(height, width, y) - 1 {
        Tile::Wall
    } else if x % 2 == 1 {
        Tile::Grass
    } else {
        Tile::Water
    }
}

/// `tiles` is exactly the grid generated for `height` and `width`.
pub open spec fn is_layout(tiles: Seq<Seq<Tile>>, height: nat, width: nat) -> bool {
    &&& tiles.len() == row_count(height)
    &&& forall|y: int| 0 <= y < tiles.len() ==> #[trigger] tiles[y].len() == row_len(height, width, y)
    &&& forall|y: int, x: int|
        0 <= y < tiles.len() && 0 <= x < tiles[y].len() ==> #[trigger] tiles[y][x] == tile_at(height, width, y, x)
}

/// Dimensions on which the grid can be generated: at least one row, and a
/// non-empty width wherever an inner row has to be laid out.
pub open spec fn valid_dimensions(height: nat, width: nat) -> bool {
    height >= 1 && (height > 2 ==> width >= 1)
}

/// The rows of a grid as sequences.
pub open spec fn rows_view(layout: Seq<Vec<Tile>>) -> Seq<Seq<Tile>> {
    layout.map_values(|r: Vec<Tile>| r@)
}

/// The world grid: walls around the border, alternating grass and water inside.
pub struct WorldMap {
    height: usize,
    width: usize,
    layout: Vec<Vec<Tile>>,
}

impl WorldMap {
    pub closed spec fn spec_height(&self) -> nat {
        self.height as nat
    }

    pub closed spec fn spec_width(&self) -> nat {
        self.width as nat
    }

    /// The grid, row by row.
    pub closed spec fn tiles(&self) -> Seq<Seq<Tile>> {
        rows_view(self.layout@)
    }

    /// The grid is the one generated for the stored dimensions.
    pub open spec fn wf(&self) -> bool {
        &&& valid_dimensions(self.spec_height(), self.spec_width())
        &&& is_layout(self.tiles(), self.spec_height(), self.spec_width())
    }

    /// Builds the grid for the given dimensions.
    pub fn new(height: usize, width: usize) -> (r: WorldMap)
        requires
            valid_dimensions(height as nat, width as nat),
        ensures
            r.wf(),
            r.spec_height() == height,
            r.spec_width() == width,
    {
        let mut layout: Vec<Vec<Tile>> = Vec::new();
        layout.push(wall_row(width));
        let mut y: usize = 1;
        while y < height - 1
            invariant
                1 <= y,
                height >= 1,
                height > 2 ==> width >= 1,
                y < height || y == 1,
                layout@.len() == y,
                forall|k: int| 0 <= k < y ==> #[trigger] layout@[k]@.len() == row_len(height as nat, width as nat, k),
                forall|k: int, x: int|
                    0 <= k < y && 0 <= x < layout@[k]@.len() ==> #[trigger] layout@[k]@[x] == tile_at(
                        height as nat,
                        width as nat,
                        k,
                        x,
                    ),
            decreases height - y,
        {
            let row = inner_row(width);
            layout.push(row);
            y += 1;
        }
        layout.push(wall_row(width));
        let r = WorldMap { height, width, layout };
        assert(is_layout(r.tiles(), height as nat, width as nat));
        r
    }

    /// The tile at column `x` of row `y`.
    pub fn get_tile(&self, x: usize, y: usize) -> (r: &Tile)
        requires
            y < self.tiles().len(),
            x < self.tiles()[y as int].len(),
        ensures
            *r == self.tiles()[y as int][x as int],
    {
        &self.layout[y][x]
    }

    pub fn get_height(&self) -> (r: usize)
        ensures
            r == self.spec_height(),
    {
        self.height
    }

    pub fn get_width(&self) -> (r: usize)
        ensures
            r == self.spec_width(),
    {
        self.width
    }
}

/// A row of `width` walls.
fn wall_row(width: usize) -> (r: Vec<Tile>)
    ensures
        r@.len() == width,
        forall|x: int| 0 <= x < width ==> #[trigger] r@[x] == Tile::Wall,
{
    let mut row: Vec<Tile> = Vec::new();
    let mut i: usize = 0;
    while i < width
        invariant
            i <= width,
            row@.len() == i,
            forall|x: int| 0 <= x < i ==> #[trigger] row@[x] == Tile::Wall,
        decreases width - i,
    {
        row.push(Tile::Wall);
        i += 1;
    }
    row
}

/// The tile at column `x` of an inner row of length `len`.
pub open spec fn inner_tile(len: nat, x: int) -> Tile {
    if x == 0 || x == len - 1 {
        Tile::Wall
    } else if x % 2 == 1 {
        Tile::Grass
    } else {
        Tile::Water
    }
}

/// An inner row: a wall, the grass/water pairs, and a wall.
fn inner_row(width: usize) -> (r: Vec<Tile>)
    requires
        width >= 1,
    ensures
        r@.len() == 2 + 2 * pair_count(width as nat),
        forall|x: int| 0 <= x < r@.len() ==> #[trigger] r@[x] == inner_tile(r@.len(), x),
{
    let mut row: Vec<Tile> = Vec::new();
    row.push(Tile::Wall);
    let k: usize = (width - 1) / 2;
    let mut j: usize = 1;
    while j < k
        invariant
            1 <= j,
            j <= k || j == 1,
            k == (width - 1) / 2,
            row@.len() == 2 * j - 1,
            forall|x: int|
                0 <= x < row@.len() ==> #[trigger] row@[x] == (if x == 0 {
                    Tile::Wall
                } else if x % 2 == 1 {
                    Tile::Grass
                } else {
                    Tile::Water
                }),
        decreases k - j,
    {
        row.push(Tile::Grass);
        row.push(Tile::Water);
        j += 1;
    }
    row.push(Tile::Wall);
    assert(j - 1 == pair_count(width as nat));
    row
}

/// A decoupled copy of the grid, together with a snapshot of the creatures
/// living on it, for a presentation layer to read without sharing state.
pub struct ReadOnlyMap<C> {
    height: usize,
    width: usize,
    creatures: Vec<C>,
    layout: Vec<Vec<Tile>>,
}

impl<C> ReadOnlyMap<C> {
    pub closed spec fn spec_height(&self) -> nat {
        self.height as nat
    }

    pub closed spec fn spec_width(&self) -> nat {
        self.width as nat
    }

    pub closed spec fn tiles(&self) -> Seq<Seq<Tile>> {
        rows_view(self.layout@)
    }

    pub closed spec fn spec_creatures(&self) -> Seq<C> {
        self.creatures@
    }

    /// Copies the grid of `map` and takes the given creature snapshot.
    pub fn from_map(map: &WorldMap, creatures: Vec<C>) -> (r: Self)
        ensures
            r.spec_height() == map.spec_height(),
            r.spec_width() == map.spec_width(),
            r.tiles() == map.tiles(),
            r.spec_creatures() == creatures@,
    {
        let mut layout: Vec<Vec<Tile>> = Vec::new();
        let mut y: usize = 0;
        while y < map.layout.len()
            invariant
                y <= map.layout@.len(),
                layout@.len() == y,
                forall|k: int| 0 <= k < y ==> #[trigger] layout@[k]@ == map.layout@[k]@,
            decreases map.layout@.len() - y,
        {
            layout.push(copy_row(&map.layout[y]));
            y += 1;
        }
        let r = ReadOnlyMap { height: map.height, width: map.width, creatures, layout };
        assert(r.tiles() =~= map.tiles());
        r
    }

    pub fn height(&self) -> (r: usize)
        ensures
            r == self.spec_height(),
    {
        self.height
    }

    pub fn width(&self) -> (r: usize)
        ensures
            r == self.spec_width(),
    {
        self.width
    }

    /// The creatures as they were when the snapshot was taken.
    pub fn creatures(&self) -> (r: &Vec<C>)
        ensures
            r@ == self.spec_creatures(),
    {
        &self.creatures
    }

    /// The rows of the grid.
    pub fn layout(&self) -> (r: &Vec<Vec<Tile>>)
        ensures
            rows_view(r@) == self.tiles(),
    {
        &self.layout
    }
}

/// An element-by-element copy of a row.
fn copy_row(row: &Vec<Tile>) -> (r: Vec<Tile>)
    ensures
        r@ == row@,
{
    let mut out: Vec<Tile> = Vec::new();
    let mut x: usize = 0;
    while x < row.len()
        invariant
            x <= row@.len(),
            out@ == row@.subrange(0, x as int),
        decreases row@.len() - x,
    {
        out.push(row[x]);
        x += 1;
        assert(out@ =~= row@.subrange(0, x as int));
    }
    assert(out@ =~= row@);
    out
}

} // verus!
