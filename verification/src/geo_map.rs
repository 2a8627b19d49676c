use vstd::prelude::*;

verus! {

/// One array of GeoJSON positions: `None` where the member is not an array
/// at all, and within it `None` for an entry that is not a position.
pub type Positions<C> = Option<Vec<Option<C>>>;

/// A GeoJSON value as the map reader walks it. `C` is a position, which the
/// front end reads from the numbers; each array the reader looks for is
/// `None` where the value does not hold one.
pub enum GeoValue<C> {
    FeatureCollection(Option<Vec<GeoValue<C>>>),
    Feature(Option<Box<GeoValue<C>>>),
    GeometryCollection(Option<Vec<GeoValue<C>>>),
    LineString(Positions<C>),
    MultiLineString(Option<Vec<Positions<C>>>),
    Polygon(Option<Vec<Positions<C>>>),
    MultiPolygon(Option<Vec<Option<Vec<Positions<C>>>>>),
    /// Any other value, which draws nothing.
    Other,
}

/// The segments of a line: each two neighbouring entries that are both
/// positions; an entry that is not one breaks the line.
pub open spec fn line_segments<C>(entries: Seq<Option<C>>) -> Seq<(C, C)>
    decreases entries.len(),
{
    if entries.len() < 2 {
        Seq::empty()
    } else {
        line_segments(entries.drop_last()) + match (entries[entries.len() - 2], entries.last()) {
            (Some(start), Some(end)) => seq![(start, end)],
            _ => Seq::empty(),
        }
    }
}

/// The segments of an array of positions, none where it is not an array.
pub open spec fn positions_segments<C>(line: Positions<C>) -> Seq<(C, C)> {
    match line {
        Some(entries) => line_segments(entries@),
        None => Seq::empty(),
    }
}

/// The segments of several lines, in order.
pub open spec fn lines_segments<C>(lines: Seq<Positions<C>>) -> Seq<(C, C)>
    decreases lines.len(),
{
    if lines.len() == 0 {
        Seq::empty()
    } else {
        lines_segments(lines.drop_last()) + positions_segments(lines.last())
    }
}

/// The entries of a line that are positions, in order.
pub open spec fn valid_positions<C>(entries: Seq<Option<C>>) -> Seq<C>
    decreases entries.len(),
{
    if entries.len() == 0 {
        Seq::empty()
    } else {
        valid_positions(entries.drop_last()) + match entries.last() {
            Some(position) => seq![position],
            None => Seq::empty(),
        }
    }
}

/// The outer ring of a polygon, as its positions, where its first ring is
/// an array; the front end decides whether it makes a face.
pub open spec fn outer_rings<C>(rings: Seq<Positions<C>>) -> Seq<Seq<C>> {
    if rings.len() == 0 {
        Seq::empty()
    } else {
        match rings[0] {
            Some(entries) => seq![valid_positions(entries@)],
            None => Seq::empty(),
        }
    }
}

/// What a map collects: line segments, and outer rings of polygons.
#[verifier::ext_equal]
pub struct Collected<C> {
    pub segments: Seq<(C, C)>,
    pub rings: Seq<Seq<C>>,
}

impl<C> Collected<C> {
    pub open spec fn none() -> Self {
        Collected { segments: Seq::empty(), rings: Seq::empty() }
    }

    pub open spec fn followed_by(self, other: Self) -> Self {
        Collected { segments: self.segments + other.segments, rings: self.rings + other.rings }
    }
}

/// What a polygon's rings give: every ring drawn as a line, and the outer
/// ring as a face.
pub open spec fn polygon_collected<C>(rings: Option<Vec<Positions<C>>>) -> Collected<C> {
    match rings {
        Some(rings) => Collected { segments: lines_segments(rings@), rings: outer_rings(rings@) },
        None => Collected::none(),
    }
}

/// What several polygons give, in order.
pub open spec fn polygons_collected<C>(polygons: Seq<Option<Vec<Positions<C>>>>) -> Collected<C>
    decreases polygons.len(),
{
    if polygons.len() == 0 {
        Collected::none()
    } else {
        polygons_collected(polygons.drop_last()).followed_by(polygon_collected(polygons.last()))
    }
}

/// What a GeoJSON value draws: collections and features give what their
/// members give, in order; lines give their segments; polygons give their
/// rings as lines and their outer ring as a face; anything else nothing.
pub open spec fn collected<C>(value: GeoValue<C>) -> Collected<C>
    decreases value, 1int,
{
    match value {
        GeoValue::FeatureCollection(Some(members)) => collected_all(members@),
        GeoValue::Feature(Some(geometry)) => collected(*geometry),
        GeoValue::GeometryCollection(Some(members)) => collected_all(members@),
        GeoValue::LineString(line) => Collected {
            segments: positions_segments(line),
            rings: Seq::empty(),
        },
        GeoValue::MultiLineString(Some(lines)) => Collected {
            segments: lines_segments(lines@),
            rings: Seq::empty(),
        },
        GeoValue::Polygon(rings) => polygon_collected(rings),
        GeoValue::MultiPolygon(Some(polygons)) => polygons_collected(polygons@),
        _ => Collected::none(),
    }
}

/// What several values give, in order.
pub open spec fn collected_all<C>(values: Seq<GeoValue<C>>) -> Collected<C>
    decreases values, 0int,
{
    if values.len() == 0 {
        Collected::none()
    } else {
        collected_all(values.drop_last()).followed_by(collected(values.last()))
    }
}

/// The views of a list of rings.
pub open spec fn rings_view<C>(rings: Seq<Vec<C>>) -> Seq<Seq<C>> {
    rings.map_values(|ring: Vec<C>| ring@)
}

/// The segments and rings gathered so far.
pub struct GeoCollector<C> {
    pub segments: Vec<(C, C)>,
    pub rings: Vec<Vec<C>>,
}

impl<C> GeoCollector<C> {
    pub open spec fn collected_view(&self) -> Collected<C> {
        Collected { segments: self.segments@, rings: rings_view(self.rings@) }
    }
}

/// Adding a ring adds its view.
proof fn lemma_rings_view_push<C>(rings: Seq<Vec<C>>, ring: Vec<C>)
    ensures
        rings_view(rings.push(ring)) == rings_view(rings).push(ring@),
{
    assert(rings_view(rings.push(ring)) =~= rings_view(rings).push(ring@));
}

impl<C: Copy> GeoCollector<C> {
    pub fn new() -> (collector: Self)
        ensures
            collector.collected_view() == Collected::<C>::none(),
    {
        let collector = GeoCollector { segments: Vec::new(), rings: Vec::new() };
        assert(rings_view(collector.rings@) =~= Seq::<Seq<C>>::empty());
        assert(collector.collected_view() =~= Collected::<C>::none());
        collector
    }

    /// Adds the segments of one array of positions.
    fn add_line(&mut self, line: &Positions<C>)
        ensures
            final(self).segments@ == old(self).segments@ + positions_segments(*line),
            final(self).rings@ == old(self).rings@,
    {
        let entries = match line {
            Some(entries) => entries,
            None => {
                assert(old(self).segments@ + Seq::<(C, C)>::empty() =~= old(self).segments@);
                return;
            },
        };
        let mut previous: Option<C> = None;
        let mut index: usize = 0;
        assert(old(self).segments@ + line_segments(entries@.take(0)) =~= old(self).segments@);
        while index < entries.len()
            invariant
                index <= entries@.len(),
                self.rings@ == old(self).rings@,
                self.segments@ == old(self).segments@ + line_segments(entries@.take(index as int)),
                index == 0 ==> previous is None,
                index > 0 ==> previous == entries@[index - 1],
            decreases entries@.len() - index,
        {
            let ghost before = self.segments@;
            let current = entries[index];
            if let (Some(start), Some(end)) = (previous, current) {
                self.segments.push((start, end));
            }
            proof {
                let next = entries@.take(index + 1);
                if index > 0 {
                    assert(next.drop_last() =~= entries@.take(index as int));
                    assert(next[next.len() - 2] == entries@[index - 1]);
                    assert(next.last() == entries@[index as int]);
                }
                assert(self.segments@ =~= old(self).segments@ + line_segments(next));
            }
            previous = current;
            index = index + 1;
        }
        assert(entries@.take(entries@.len() as int) =~= entries@);
    }

    /// Adds the segments of several lines.
    fn add_lines(&mut self, lines: &Vec<Positions<C>>)
        ensures
            final(self).segments@ == old(self).segments@ + lines_segments(lines@),
            final(self).rings@ == old(self).rings@,
    {
        let mut index: usize = 0;
        assert(old(self).segments@ + lines_segments(lines@.take(0)) =~= old(self).segments@);
        while index < lines.len()
            invariant
                index <= lines@.len(),
                self.rings@ == old(self).rings@,
                self.segments@ == old(self).segments@ + lines_segments(lines@.take(index as int)),
            decreases lines@.len() - index,
        {
            self.add_line(&lines[index]);
            proof {
                let next = lines@.take(index + 1);
                assert(next.drop_last() =~= lines@.take(index as int));
                assert(self.segments@ =~= old(self).segments@ + lines_segments(next));
            }
            index = index + 1;
        }
        assert(lines@.take(lines@.len() as int) =~= lines@);
    }

    /// The positions of `entries`, in order.
    fn positions_of(entries: &Vec<Option<C>>) -> (positions: Vec<C>)
        ensures
            positions@ == valid_positions(entries@),
    {
        let mut positions: Vec<C> = Vec::new();
        let mut index: usize = 0;
        while index < entries.len()
            invariant
                index <= entries@.len(),
                positions@ == valid_positions(entries@.take(index as int)),
            decreases entries@.len() - index,
        {
            if let Some(position) = entries[index] {
                positions.push(position);
            }
            proof {
                let next = entries@.take(index + 1);
                assert(next.drop_last() =~= entries@.take(index as int));
                assert(positions@ =~= valid_positions(next));
            }
            index = index + 1;
        }
        assert(entries@.take(entries@.len() as int) =~= entries@);
        positions
    }

    /// Adds what a polygon's rings give.
    fn add_polygon(&mut self, rings: &Option<Vec<Positions<C>>>)
        ensures
            final(self).collected_view() == old(self).collected_view().followed_by(polygon_collected(*rings)),
    {
        let rings = match rings {
            Some(rings) => rings,
            None => {
                assert(self.collected_view() =~= old(self).collected_view().followed_by(Collected::none()));
                return;
            },
        };
        self.add_lines(rings);
        let ghost middle = self.rings@;
        if rings.len() > 0 {
            if let Some(entries) = &rings[0] {
                let ring = Self::positions_of(entries);
                self.rings.push(ring);
                proof {
                    lemma_rings_view_push(middle, self.rings@.last());
                    assert(self.rings@ == middle.push(self.rings@.last()));
                }
            }
        }
        assert(self.collected_view() =~= old(self).collected_view().followed_by(polygon_collected(Some(*rings))));
    }

    /// Adds what several polygons give.
    fn add_polygons(&mut self, polygons: &Vec<Option<Vec<Positions<C>>>>)
        ensures
            final(self).collected_view() == old(self).collected_view().followed_by(
                polygons_collected(polygons@),
            ),
    {
        let mut index: usize = 0;
        assert(old(self).collected_view().followed_by(polygons_collected(polygons@.take(0)))
            =~= old(self).collected_view());
        while index < polygons.len()
            invariant
                index <= polygons@.len(),
                self.collected_view() == old(self).collected_view().followed_by(
                    polygons_collected(polygons@.take(index as int)),
                ),
            decreases polygons@.len() - index,
        {
            self.add_polygon(&polygons[index]);
            proof {
                let next = polygons@.take(index + 1);
                assert(next.drop_last() =~= polygons@.take(index as int));
                assert(self.collected_view() =~= old(self).collected_view().followed_by(
                    polygons_collected(next),
                ));
            }
            index = index + 1;
        }
        assert(polygons@.take(polygons@.len() as int) =~= polygons@);
    }

    /// Adds what several values give.
    fn add_all(&mut self, values: &Vec<GeoValue<C>>)
        ensures
            final(self).collected_view() == old(self).collected_view().followed_by(
                collected_all(values@),
            ),
        decreases values@, 0int,
    {
        let mut index: usize = 0;
        assert(old(self).collected_view().followed_by(collected_all(values@.take(0)))
            =~= old(self).collected_view());
        while index < values.len()
            invariant
                index <= values@.len(),
                self.collected_view() == old(self).collected_view().followed_by(
                    collected_all(values@.take(index as int)),
                ),
            decreases values@.len() - index,
        {
            assert(decreases_to!(values@ => values@[index as int]));
            self.add_value(&values[index]);
            proof {
                let next = values@.take(index + 1);
                assert(next.drop_last() =~= values@.take(index as int));
                assert(self.collected_view() =~= old(self).collected_view().followed_by(
                    collected_all(next),
                ));
            }
            index = index + 1;
        }
        assert(values@.take(values@.len() as int) =~= values@);
    }

    /// Adds what `value` draws; see `collected`.
    pub fn add_value(&mut self, value: &GeoValue<C>)
        ensures
            final(self).collected_view() == old(self).collected_view().followed_by(collected(*value)),
        decreases *value, 1int,
    {
        match value {
            GeoValue::FeatureCollection(Some(members)) | GeoValue::GeometryCollection(
                Some(members),
            ) => {
                self.add_all(members);
            },
            GeoValue::Feature(Some(geometry)) => {
                self.add_value(geometry);
            },
            GeoValue::LineString(line) => {
                self.add_line(line);
                assert(self.collected_view() =~= old(self).collected_view().followed_by(collected(*value)));
            },
            GeoValue::MultiLineString(Some(lines)) => {
                self.add_lines(lines);
                assert(self.collected_view() =~= old(self).collected_view().followed_by(collected(*value)));
            },
            GeoValue::Polygon(rings) => {
                self.add_polygon(rings);
            },
            GeoValue::MultiPolygon(Some(polygons)) => {
                self.add_polygons(polygons);
            },
            _ => {
                assert(self.collected_view() =~= old(self).collected_view().followed_by(collected(*value)));
            },
        }
    }
}

/// What a GeoJSON value draws, gathered from nothing; see `collected`.
pub fn collect_geo<C: Copy>(value: &GeoValue<C>) -> (collector: GeoCollector<C>)
    ensures
        collector.collected_view() == collected(*value),
{
    let mut collector = GeoCollector::new();
    collector.add_value(value);
    assert(collector.collected_view() =~= collected(*value));
    collector
}

} // verus!
