//! The product record, and how a row of the store becomes one.

use crate::error::RequestError;
use vstd::prelude::*;
use vstd::seq_lib::*;

verus! {

/// One column value of a row, as the store hands it out.
#[derive(Clone, Debug, PartialEq, Eq)]
pub enum Cell {
    Null,
    Integer(i64),
    Text(String),
}

/// The mathematical value of a [`Cell`].
pub enum CellView {
    Null,
    Integer(int),
    Text(Seq<char>),
}

impl View for Cell {
    type V = CellView;

    open spec fn view(&self) -> CellView {
        match *self {
            Cell::Null => CellView::Null,
            Cell::Integer(n) => CellView::Integer(n as int),
            Cell::Text(s) => CellView::Text(s@),
        }
    }
}

/// One row of the product table: the columns `id`, `name` and `price`, in
/// this order.
#[derive(Clone, Debug, PartialEq, Eq)]
pub struct Row {
    pub cells: Vec<Cell>,
}

impl View for Row {
    type V = Seq<CellView>;

    open spec fn view(&self) -> Seq<CellView> {
        self.cells@.map_values(|c: Cell| c@)
    }
}

/// A product as it is shown to clients.
#[derive(Clone, Debug, PartialEq, Eq)]
pub struct Product {
    /// The identifier that the store assigned.
    pub id: i32,
    pub name: String,
    /// The price, where the store holds one.
    pub price: Option<i32>,
}

/// The mathematical value of a [`Product`].
pub struct ProductView {
    pub id: int,
    pub name: Seq<char>,
    pub price: Option<int>,
}

impl View for Product {
    type V = ProductView;

    open spec fn view(&self) -> ProductView {
        ProductView {
            id: self.id as int,
            name: self.name@,
            price: match self.price {
                Some(p) => Some(p as int),
                None => None,
            },
        }
    }
}

/// The values of a sequence of products.
pub open spec fn views(products: Seq<Product>) -> Seq<ProductView> {
    products.map_values(|p: Product| p@)
}

/// The values of a sequence of rows.
pub open spec fn row_views(rows: Seq<Row>) -> Seq<Seq<CellView>> {
    rows.map_values(|r: Row| r@)
}

/// Whether an integer of the store fits the 32 bits of an identifier or a price.
pub open spec fn fits_i32(n: int) -> bool {
    i32::MIN <= n <= i32::MAX
}

/// The identifier that a cell holds: an integer of 32 bits, never null.
pub open spec fn id_of_cell(cell: CellView) -> Option<int> {
    match cell {
        CellView::Integer(n) => if fits_i32(n) {
            Some(n)
        } else {
            None
        },
        _ => None,
    }
}

/// The name that a cell holds: a text, never null.
pub open spec fn name_of_cell(cell: CellView) -> Option<Seq<char>> {
    match cell {
        CellView::Text(s) => Some(s),
        _ => None,
    }
}

/// The price that a cell holds: an integer of 32 bits, or none where the cell
/// is null. The outer `None` says that the cell holds no price at all.
pub open spec fn price_of_cell(cell: CellView) -> Option<Option<int>> {
    match cell {
        CellView::Null => Some(None),
        CellView::Integer(n) => if fits_i32(n) {
            Some(Some(n))
        } else {
            None
        },
        CellView::Text(_) => None,
    }
}

/// The product that a row stands for, if it has the shape of one: exactly
/// three cells that hold an identifier, a name and a price.
pub open spec fn product_of_row(row: Seq<CellView>) -> Option<ProductView> {
    if row.len() == 3 && id_of_cell(row[0]) is Some && name_of_cell(row[1]) is Some
        && price_of_cell(row[2]) is Some {
        Some(
            ProductView {
                id: id_of_cell(row[0])->Some_0,
                name: name_of_cell(row[1])->Some_0,
                price: price_of_cell(row[2])->Some_0,
            },
        )
    } else {
        None
    }
}

/// Whether every row has the shape of a product.
pub open spec fn all_rows_map(rows: Seq<Seq<CellView>>) -> bool {
    forall|i: int| 0 <= i < rows.len() ==> (#[trigger] product_of_row(rows[i])) is Some
}

/// The products that a sequence of rows stands for, row by row and in the
/// rows' order; none at all as soon as one row does not map.
pub open spec fn products_of_rows(rows: Seq<Seq<CellView>>) -> Option<Seq<ProductView>> {
    if all_rows_map(rows) {
        Some(Seq::new(rows.len(), |i: int| product_of_row(rows[i])->Some_0))
    } else {
        None
    }
}

/// Tells whether `n` fits the 32 bits of an identifier or a price.
fn narrow(n: i64) -> (out: Option<i32>)
    ensures
        out is Some <==> fits_i32(n as int),
        out matches Some(v) ==> v == n,
{
    if -2147483648 <= n && n <= 2147483647 {
        Some(n as i32)
    } else {
        None
    }
}

impl Product {
    /// Converts one row of the store into a product. The row must hold
    /// exactly the three columns, with an identifier and a name that are
    /// present and of the right type; the price may be null. Any other shape
    /// is a mapping failure.
    pub fn from_row(row: &Row) -> (out: Result<Product, RequestError>)
        ensures
            match product_of_row(row@) {
                Some(p) => out matches Ok(product) && product@ == p,
                None => out == Err::<Product, RequestError>(RequestError::MappingFailed),
            },
    {
        if row.cells.len() != 3 {
            return Err(RequestError::MappingFailed);
        }
        assert(row@[0] == row.cells@[0]@ && row@[1] == row.cells@[1]@ && row@[2] == row.cells@[2]@);
        let id = match &row.cells[0] {
            Cell::Integer(n) => match narrow(*n) {
                Some(v) => v,
                None => { return Err(RequestError::MappingFailed); },
            },
            _ => { return Err(RequestError::MappingFailed); },
        };
        let name = match &row.cells[1] {
            Cell::Text(s) => s.clone(),
            _ => { return Err(RequestError::MappingFailed); },
        };
        let price = match &row.cells[2] {
            Cell::Null => None,
            Cell::Integer(n) => match narrow(*n) {
                Some(v) => Some(v),
                None => { return Err(RequestError::MappingFailed); },
            },
            Cell::Text(_) => { return Err(RequestError::MappingFailed); },
        };
        Ok(Product { id, name, price })
    }
}

/// Converts all rows or none: the products come in the rows' order, and one
/// row that does not map fails the whole conversion.
pub fn map_rows(rows: &Vec<Row>) -> (out: Result<Vec<Product>, RequestError>)
    ensures
        match products_of_rows(row_views(rows@)) {
            Some(products) => out matches Ok(v) && views(v@) == products,
            None => out == Err::<Vec<Product>, RequestError>(RequestError::MappingFailed),
        },
{
    let mut products: Vec<Product> = Vec::new();
    let mut i: usize = 0;
    while i < rows.len()
        invariant
            i <= rows.len(),
            products.len() == i,
            forall|k: int|
                0 <= k < i ==> (#[trigger] product_of_row(row_views(rows@)[k])) == Some(
                    products@[k]@,
                ),
        decreases rows.len() - i,
    {
        assert(row_views(rows@)[i as int] == rows@[i as int]@);
        match Product::from_row(&rows[i]) {
            Ok(product) => {
                products.push(product);
            },
            Err(_) => {
                assert(product_of_row(row_views(rows@)[i as int]) is None);
                return Err(RequestError::MappingFailed);
            },
        }
        i += 1;
    }
    assert(all_rows_map(row_views(rows@)));
    assert(views(products@) =~= products_of_rows(row_views(rows@))->Some_0);
    Ok(products)
}

/// Whether the identifiers never decrease along the sequence.
pub open spec fn ascending(products: Seq<ProductView>) -> bool {
    forall|i: int, j: int| 0 <= i <= j < products.len() ==> products[i].id <= products[j].id
}

/// An ascending sequence with one more product in it: `p` stands behind
/// every product whose identifier is not greater than its own.
pub open spec fn place(sorted: Seq<ProductView>, p: ProductView) -> Seq<ProductView>
    decreases sorted.len(),
{
    if sorted.len() == 0 || sorted.last().id <= p.id {
        sorted.push(p)
    } else {
        place(sorted.drop_last(), p).push(sorted.last())
    }
}

/// The products in ascending order of identifier. Products that share an
/// identifier keep the order in which they came.
pub open spec fn by_id(products: Seq<ProductView>) -> Seq<ProductView>
    decreases products.len(),
{
    if products.len() == 0 {
        products
    } else {
        place(by_id(products.drop_last()), products.last())
    }
}

/// `place` puts the product at the one index that has only greater
/// identifiers behind it and none greater before it.
proof fn lemma_place_at(sorted: Seq<ProductView>, p: ProductView, pos: int)
    requires
        0 <= pos <= sorted.len(),
        forall|k: int| pos <= k < sorted.len() ==> sorted[k].id > p.id,
        pos > 0 ==> sorted[pos - 1].id <= p.id,
    ensures
        place(sorted, p) == sorted.insert(pos, p),
    decreases sorted.len() - pos,
{
    if pos == sorted.len() {
        assert(sorted.push(p) =~= sorted.insert(pos, p));
    } else {
        lemma_place_at(sorted.drop_last(), p, pos);
        assert(sorted.drop_last().insert(pos, p).push(sorted.last()) =~= sorted.insert(pos, p));
    }
}

/// Puts the products in ascending order of identifier, keeping the order of
/// those that share one.
pub fn sort_by_id(products: Vec<Product>) -> (out: Vec<Product>)
    ensures
        views(out@) == by_id(views(products@)),
{
    let ghost given = products@;
    let mut items = products;
    let n = items.len();
    let mut i: usize = 0;
    assert(views(given.take(0)) =~= Seq::<ProductView>::empty());
    while i < n
        invariant
            i <= n,
            n == given.len(),
            items.len() == n,
            views(items@.take(i as int)) == by_id(views(given.take(i as int))),
            items@.skip(i as int) == given.skip(i as int),
        decreases n - i,
    {
        let ghost before = items@;
        let key = items[i].id;
        let mut pos: usize = i;
        while pos > 0 && items[pos - 1].id > key
            invariant
                pos <= i < items.len(),
                forall|k: int| pos <= k < i ==> items@[k].id > key,
            decreases pos,
        {
            pos -= 1;
        }
        if pos < i {
            let item = items.remove(i);
            items.insert(pos, item);
        }
        proof {
            let head = before.take(i as int);
            let moved = before[i as int];
            assert(moved == before.skip(i as int)[0]);
            assert(moved == given[i as int]);
            assert(items@.take(i + 1) =~= head.insert(pos as int, moved));
            assert(items@.skip(i + 1) =~= before.skip(i as int).skip(1));
            assert(given.skip(i + 1) =~= given.skip(i as int).skip(1));
            assert(views(head.insert(pos as int, moved)) =~= views(head).insert(pos as int, moved@));
            lemma_place_at(views(head), moved@, pos as int);
            let grown = views(given.take(i + 1));
            assert(grown.drop_last() =~= views(given.take(i as int)));
            assert(grown.last() == moved@);
        }
        i += 1;
    }
    assert(items@.take(n as int) =~= items@);
    assert(given.take(n as int) =~= given);
    items
}

/// Whether no two products of the sequence share an identifier.
pub open spec fn distinct_ids(products: Seq<ProductView>) -> bool {
    forall|i: int, j: int| 0 <= i < j < products.len() ==> products[i].id != products[j].id
}

/// The products with one identifier, in the order in which they stand.
pub open spec fn with_id(products: Seq<ProductView>, id: int) -> Seq<ProductView> {
    products.filter(|p: ProductView| p.id == id)
}

/// The index at which `place` puts the product.
proof fn lemma_place_index(sorted: Seq<ProductView>, p: ProductView) -> (pos: int)
    ensures
        0 <= pos <= sorted.len(),
        place(sorted, p) == sorted.insert(pos, p),
        forall|k: int| pos <= k < sorted.len() ==> sorted[k].id > p.id,
        pos > 0 ==> sorted[pos - 1].id <= p.id,
    decreases sorted.len(),
{
    if sorted.len() == 0 || sorted.last().id <= p.id {
        assert(sorted.push(p) =~= sorted.insert(sorted.len() as int, p));
        sorted.len() as int
    } else {
        let pos = lemma_place_index(sorted.drop_last(), p);
        assert(sorted.drop_last().insert(pos, p).push(sorted.last()) =~= sorted.insert(pos, p));
        assert forall|k: int| pos <= k < sorted.len() implies sorted[k].id > p.id by {
            if k < sorted.len() - 1 {
                assert(sorted.drop_last()[k] == sorted[k]);
            }
        }
        pos
    }
}

/// The identifiers never decrease along an ordered listing.
pub proof fn lemma_by_id_ascending(products: Seq<ProductView>)
    ensures
        ascending(by_id(products)),
    decreases products.len(),
{
    if products.len() > 0 {
        let sorted = by_id(products.drop_last());
        let p = products.last();
        lemma_by_id_ascending(products.drop_last());
        let pos = lemma_place_index(sorted, p);
        let out = sorted.insert(pos, p);
        assert forall|i: int, j: int| 0 <= i <= j < out.len() implies out[i].id <= out[j].id by {
            if i < pos && j == pos {
                assert(sorted[i].id <= sorted[pos - 1].id);
            } else if i < pos && j > pos {
                assert(sorted[i].id <= sorted[j - 1].id);
            } else if i > pos {
                assert(sorted[i - 1].id <= sorted[j - 1].id);
            }
        }
    }
}

/// An ordered listing holds the products that it was given, each as often as
/// it was given: none is lost, none is added.
pub proof fn lemma_by_id_permutes(products: Seq<ProductView>)
    ensures
        by_id(products).to_multiset() == products.to_multiset(),
        by_id(products).len() == products.len(),
    decreases products.len(),
{
    if products.len() > 0 {
        let rest = products.drop_last();
        let p = products.last();
        lemma_by_id_permutes(rest);
        let pos = lemma_place_index(by_id(rest), p);
        to_multiset_insert(by_id(rest), pos, p);
        to_multiset_build(rest, p);
        assert(rest.push(p) =~= products);
    }
}

/// In an ordered listing the products that share an identifier stand in the
/// order in which they were given.
pub proof fn lemma_by_id_stable(products: Seq<ProductView>, id: int)
    ensures
        with_id(by_id(products), id) == with_id(products, id),
    decreases products.len(),
{
    if products.len() > 0 {
        let rest = products.drop_last();
        let p = products.last();
        let sorted = by_id(rest);
        let pred = |q: ProductView| q.id == id;
        lemma_by_id_stable(rest, id);
        let pos = lemma_place_index(sorted, p);
        let front = sorted.take(pos);
        let back = sorted.skip(pos);
        assert(sorted.insert(pos, p) =~= front.push(p) + back);
        assert(sorted =~= front + back);
        Seq::filter_distributes_over_add(front.push(p), back, pred);
        Seq::filter_distributes_over_add(front, back, pred);
        front.lemma_filter_push(p, pred);
        rest.lemma_filter_push(p, pred);
        assert(rest.push(p) =~= products);
        if p.id == id {
            assert(back.all(|x: ProductView| !pred(x)));
            back.lemma_all_neg_filter_empty(pred);
            assert(back.filter(pred) =~= Seq::<ProductView>::empty());
            assert(front.filter(pred).push(p) + back.filter(pred) =~= (front.filter(pred)
                + back.filter(pred)).push(p));
        }
    }
}

/// Ordering keeps identifiers distinct.
proof fn lemma_by_id_distinct(products: Seq<ProductView>)
    requires
        distinct_ids(products),
    ensures
        distinct_ids(by_id(products)),
    decreases products.len(),
{
    if products.len() > 0 {
        let rest = products.drop_last();
        let p = products.last();
        let sorted = by_id(rest);
        assert(distinct_ids(rest));
        lemma_by_id_distinct(rest);
        lemma_by_id_permutes(rest);
        let pos = lemma_place_index(sorted, p);
        let out = sorted.insert(pos, p);
        assert forall|k: int| 0 <= k < sorted.len() implies sorted[k].id != p.id by {
            to_multiset_contains(sorted, sorted[k]);
            to_multiset_contains(rest, sorted[k]);
            assert(sorted.contains(sorted[k]));
            let m = choose|m: int| 0 <= m < rest.len() && rest[m] == sorted[k];
            assert(products[m] == sorted[k]);
        }
        assert forall|i: int, j: int| 0 <= i < j < out.len() implies out[i].id != out[j].id by {
            if i < pos && j > pos {
                assert(sorted[i].id != sorted[j - 1].id);
            } else if i > pos {
                assert(sorted[i - 1].id != sorted[j - 1].id);
            } else if i < pos && j < pos {
                assert(sorted[i].id != sorted[j].id);
            }
        }
    }
}

/// Two ascending sequences without a repeated identifier that hold the same
/// products are one and the same sequence.
proof fn lemma_ascending_is_unique(x: Seq<ProductView>, y: Seq<ProductView>)
    requires
        ascending(x),
        ascending(y),
        distinct_ids(x),
        distinct_ids(y),
        x.len() == y.len(),
        forall|e: ProductView| x.contains(e) <==> y.contains(e),
    ensures
        x == y,
    decreases x.len(),
{
    if x.len() == 0 {
        assert(x =~= y);
    } else {
        let n = x.len() - 1;
        assert(x.contains(x[n]));
        assert(y.contains(y[n]));
        let k = choose|k: int| 0 <= k < y.len() && y[k] == x[n];
        let l = choose|l: int| 0 <= l < x.len() && x[l] == y[n];
        assert(x[l].id <= x[n].id);
        assert(y[k].id <= y[n].id);
        assert(k == n);
        let xs = x.drop_last();
        let ys = y.drop_last();
        assert forall|e: ProductView| xs.contains(e) <==> ys.contains(e) by {
            if xs.contains(e) {
                let i = choose|i: int| 0 <= i < xs.len() && xs[i] == e;
                assert(x[i] == e);
                assert(x.contains(e));
                let j = choose|j: int| 0 <= j < y.len() && y[j] == e;
                assert(j != n);
                assert(ys[j] == e);
            }
            if ys.contains(e) {
                let i = choose|i: int| 0 <= i < ys.len() && ys[i] == e;
                assert(y[i] == e);
                assert(y.contains(e));
                let j = choose|j: int| 0 <= j < x.len() && x[j] == e;
                assert(j != n);
                assert(xs[j] == e);
            }
        }
        lemma_ascending_is_unique(xs, ys);
        assert(x =~= xs.push(x[n]));
        assert(y =~= ys.push(y[n]));
    }
}

/// The order in which the products are given does not show in an ordered
/// listing: two sequences that hold the same products, neither with a
/// repeated identifier, are listed alike.
pub proof fn lemma_by_id_ignores_order(a: Seq<ProductView>, b: Seq<ProductView>)
    requires
        distinct_ids(a),
        distinct_ids(b),
        a.to_set() == b.to_set(),
    ensures
        by_id(a) == by_id(b),
{
    let x = by_id(a);
    let y = by_id(b);
    lemma_by_id_ascending(a);
    lemma_by_id_ascending(b);
    lemma_by_id_distinct(a);
    lemma_by_id_distinct(b);
    lemma_by_id_permutes(a);
    lemma_by_id_permutes(b);
    assert(a.no_duplicates());
    assert(b.no_duplicates());
    a.unique_seq_to_set();
    b.unique_seq_to_set();
    assert forall|e: ProductView| x.contains(e) <==> y.contains(e) by {
        to_multiset_contains(x, e);
        to_multiset_contains(a, e);
        to_multiset_contains(y, e);
        to_multiset_contains(b, e);
        assert(a.contains(e) <==> a.to_set().contains(e));
        assert(b.contains(e) <==> b.to_set().contains(e));
    }
    lemma_ascending_is_unique(x, y);
}

} // verus!
