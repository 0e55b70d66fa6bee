use math_rust::{
    ColIndex, Dimension, GenericMatrix, Get, GetMut, MatIndex, Matrix, MatrixContent, RowIndex,
};

fn mat(rows: isize, cols: isize, vals: Vec<i32>) -> Matrix<i32> {
    Matrix::with_content(Dimension::new(rows, cols), MatrixContent::new_unchecked(vals))
}

#[test]
fn fill_value_reaches_every_element() {
    let m: Matrix<i32> = Matrix::with_init(Dimension::new(3, 4), 7);
    assert_eq!(m.size(), 12);
    for r in 0..3 {
        for c in 0..4 {
            assert_eq!(m.index(MatIndex::new(r, c)), 7);
        }
    }
}

#[test]
fn default_fill_is_zero_for_integers() {
    let m: Matrix<i32> = Matrix::new(Dimension::new(2, 3));
    assert_eq!(m.size(), 6);
    for r in 0..2 {
        for c in 0..3 {
            assert_eq!(m.index(MatIndex::new(r, c)), 0);
        }
    }
}

#[test]
fn normalization_maps_into_range() {
    let d = Dimension::new(5, 3);
    for i in -5..5 {
        let n = d.positate_row(RowIndex::new(i));
        assert!((0..5).contains(&n));
    }
    assert_eq!(d.positate_row(RowIndex::new(0)), 0);
    assert_eq!(d.positate_row(RowIndex::new(4)), 4);
    assert_eq!(d.positate_row(RowIndex::new(-1)), d.positate_row(RowIndex::new(4)));
    assert_eq!(d.positate_col(ColIndex::new(-1)), 2);
    assert_eq!(d.positate(MatIndex::new(-2, -3)), (3, 0));
}

#[test]
fn write_then_read_round_trip() {
    let mut m: Matrix<i32> = Matrix::with_init(Dimension::new(3, 4), 0);
    m.set(MatIndex::new(1, 2), 42);
    assert_eq!(m.index(MatIndex::new(1, 2)), 42);
    assert_eq!(m.index(MatIndex::new(1 - 3, 2)), 42);
    assert_eq!(m.index(MatIndex::new(1, 2 - 4)), 42);
    assert_eq!(m.index(MatIndex::new(1 - 3, 2 - 4)), 42);
}

#[test]
fn write_through_index_mut() {
    let mut m: Matrix<i32> = Matrix::with_init(Dimension::new(2, 2), 0);
    *m.index_mut(MatIndex::new(0, 1)) = 9;
    assert_eq!(m.index(MatIndex::new(0, 1)), 9);
    assert_eq!(m.index(MatIndex::new(0, 0)), 0);
}

#[test]
fn row_and_column_views_agree_with_element_access() {
    let m = mat(3, 4, (1..=12).collect());
    for r in 0..3 {
        let row = m.row(RowIndex::new(r));
        for c in 0..4 {
            assert_eq!(row.index(c), m.index(MatIndex::new(r, c)));
            assert_eq!(row.index_col(ColIndex::new(c)), m.index(MatIndex::new(r, c)));
        }
    }
    for c in 0..4 {
        let col = m.column(ColIndex::new(c));
        for r in 0..3 {
            assert_eq!(col.index(r), m.index(MatIndex::new(r, c)));
            assert_eq!(col.index_row(RowIndex::new(r)), m.index(MatIndex::new(r, c)));
        }
    }
}

#[test]
fn views_accept_negative_fixed_coordinate() {
    let m = mat(2, 3, vec![1, 2, 3, 4, 5, 6]);
    let last_row = m.row(RowIndex::new(-1));
    assert_eq!(last_row.index(0), 4);
    let last_col = m.column(ColIndex::new(-1));
    assert_eq!(last_col.index(0), 3);
    assert_eq!(last_col.index(-1), 6);
}

#[test]
fn view_positate_uses_free_extent() {
    let m = mat(2, 3, vec![1, 2, 3, 4, 5, 6]);
    let row = m.row(RowIndex::new(0));
    assert_eq!(row.positate(-1), 2);
    let col = m.column(ColIndex::new(0));
    assert_eq!(col.positate(-1), 1);
    let rm = m.row_mut(RowIndex::new(0));
    assert_eq!(rm.positate(-2), 1);
    let cm = m.column_mut(ColIndex::new(0));
    assert_eq!(cm.positate(-2), 0);
}

#[test]
fn row_iterator_walks_columns_in_order() {
    let m = mat(2, 3, vec![1, 2, 3, 4, 5, 6]);
    let mut it = m.row(RowIndex::new(1)).into_iter();
    let mut seen = Vec::new();
    while let Some(v) = it.next() {
        seen.push(v);
    }
    assert_eq!(seen, vec![4, 5, 6]);
}

#[test]
fn column_iterator_walks_rows_in_order() {
    let m = mat(2, 3, vec![1, 2, 3, 4, 5, 6]);
    let mut it = m.column(ColIndex::new(2)).into_iter();
    let mut seen = Vec::new();
    while let Some(v) = it.next() {
        seen.push(v);
    }
    assert_eq!(seen, vec![3, 6]);
}

#[test]
fn rows_iterator_yields_each_row_view() {
    let m = mat(2, 2, vec![1, 2, 3, 4]);
    let mut rows = m.rows();
    let first = rows.next().unwrap();
    assert_eq!(first.index(0), 1);
    let second = rows.next().unwrap();
    assert_eq!(second.index(0), 3);
    assert!(rows.next().is_none());
}

#[test]
fn columns_iterator_yields_each_column_view() {
    let m = mat(2, 2, vec![1, 2, 3, 4]);
    let mut cols = m.columns();
    let first = cols.next().unwrap();
    assert_eq!(first.index(1), 3);
    let second = cols.next().unwrap();
    assert_eq!(second.index(1), 4);
    assert!(cols.next().is_none());
}

#[test]
fn strided_row_walk_visits_row_in_column_order() {
    let m = mat(3, 3, (1..=9).collect());
    let mut it = m.row_mut(RowIndex::new(1)).into_iter();
    let mut offsets = Vec::new();
    while let Some(off) = it.next() {
        offsets.push(off);
    }
    assert_eq!(offsets, vec![3, 4, 5]);

    let mut m = m;
    for off in offsets {
        let v = m.at_flat(off);
        m.set_flat(off, v * 10);
    }
    let expect = vec![1, 2, 3, 40, 50, 60, 7, 8, 9];
    for k in 0..9usize {
        assert_eq!(m.at_flat(k), expect[k]);
    }
}

#[test]
fn strided_column_walk_visits_column_in_row_order() {
    let m = mat(3, 3, (1..=9).collect());
    let mut it = m.column_mut(ColIndex::new(2)).into_iter();
    let mut offsets = Vec::new();
    while let Some(off) = it.next() {
        offsets.push(off);
    }
    assert_eq!(offsets, vec![2, 5, 8]);

    let mut m = m;
    for off in offsets {
        let v = m.at_flat(off);
        m.set_flat(off, v + 100);
    }
    let expect = vec![1, 2, 103, 4, 5, 106, 7, 8, 109];
    for k in 0..9usize {
        assert_eq!(m.at_flat(k), expect[k]);
    }
}

#[test]
fn mutable_row_handle_writes_elements() {
    let mut m = mat(2, 3, vec![1, 2, 3, 4, 5, 6]);
    let rm = m.row_mut(RowIndex::new(0));
    rm.set(&mut m, -1, 30);
    rm.set_col(&mut m, ColIndex::new(0), 10);
    assert_eq!(rm.index(&m, 0), 10);
    assert_eq!(rm.index_col(&m, ColIndex::new(2)), 30);
    assert_eq!(m.index(MatIndex::new(0, 1)), 2);
    assert_eq!(m.index(MatIndex::new(1, 0)), 4);
}

#[test]
fn mutable_column_handle_writes_elements() {
    let mut m = mat(2, 3, vec![1, 2, 3, 4, 5, 6]);
    let cm = m.column_mut(ColIndex::new(1));
    cm.set(&mut m, -1, 50);
    cm.set_row(&mut m, RowIndex::new(0), 20);
    assert_eq!(cm.index(&m, 0), 20);
    assert_eq!(cm.index_row(&m, RowIndex::new(1)), 50);
    assert_eq!(m.index(MatIndex::new(0, 0)), 1);
    assert_eq!(m.index(MatIndex::new(1, 2)), 6);
}

#[test]
fn rows_mut_and_columns_mut_enumerate_handles() {
    let mut m = mat(2, 2, vec![0, 0, 0, 0]);
    let mut it = m.rows_mut();
    let mut count = 0;
    while let Some(h) = it.next() {
        h.set(&mut m, 0, count);
        count += 1;
    }
    assert_eq!(count, 2);
    assert_eq!(m.index(MatIndex::new(0, 0)), 0);
    assert_eq!(m.index(MatIndex::new(1, 0)), 1);

    let mut it = m.columns_mut();
    let mut count = 0;
    while let Some(h) = it.next() {
        h.set(&mut m, -1, 7 + count);
        count += 1;
    }
    assert_eq!(count, 2);
    assert_eq!(m.index(MatIndex::new(1, 0)), 7);
    assert_eq!(m.index(MatIndex::new(1, 1)), 8);
}

#[test]
fn addition_is_element_wise() {
    let a = mat(2, 2, vec![1, 2, 3, 4]);
    let b = mat(2, 2, vec![5, 6, 7, 8]);
    let s = a.add(&b).unwrap();
    let expect = vec![6, 8, 10, 12];
    for k in 0..4usize {
        assert_eq!(s.at_flat(k), expect[k]);
    }
}

#[test]
fn addition_of_mismatched_dimensions_is_absent() {
    let a: Matrix<i32> = Matrix::with_init(Dimension::new(2, 2), 1);
    let b: Matrix<i32> = Matrix::with_init(Dimension::new(3, 2), 1);
    assert!(a.add(&b).is_none());
}

#[test]
fn scalar_multiply_scales_every_element() {
    let m = mat(2, 2, vec![1, 2, 3, 4]);
    let doubled = m.mul(2);
    let expect = vec![2, 4, 6, 8];
    for k in 0..4usize {
        assert_eq!(doubled.at_flat(k), expect[k]);
    }
}

#[test]
fn out_of_bounds_access_fails_fast() {
    let m: Matrix<i32> = Matrix::with_init(Dimension::new(3, 3), 1);
    assert!(m.try_index(MatIndex::new(5, 0)).is_none());
    assert!(m.try_index(MatIndex::new(0, 3)).is_none());
    assert!(m.try_index(MatIndex::new(-4, 0)).is_none());
    assert_eq!(m.try_index(MatIndex::new(2, -1)), Some(1));
}

#[test]
fn generic_matrix_delegates_to_integer_matrix() {
    let z = GenericMatrix::new(2, 2);
    assert_eq!(z.matrix().index(MatIndex::new(0, 0)), 0);
    let a = GenericMatrix::with_init(Dimension::new(2, 2), 3);
    let b = GenericMatrix::with(Dimension::new(2, 2));
    let s = a.add(&b).unwrap();
    assert_eq!(s.matrix().index(MatIndex::new(1, 1)), 3);
    let c = GenericMatrix::with_init(Dimension::new(1, 2), 3);
    assert!(a.add(&c).is_none());
}

#[test]
fn typed_lookup_through_get_traits() {
    let mut m = mat(2, 2, vec![1, 2, 3, 4]);
    let row = Get::get(&m, RowIndex::new(1));
    assert_eq!(row.index(0), 3);
    let col = Get::get(&m, ColIndex::new(0));
    assert_eq!(col.index(1), 3);
    let rm = GetMut::get_mut(&mut m, RowIndex::new(0));
    rm.set(&mut m, 0, 11);
    let cm = GetMut::get_mut(&mut m, ColIndex::new(1));
    cm.set(&mut m, 1, 44);
    assert_eq!(m.index(MatIndex::new(0, 0)), 11);
    assert_eq!(m.index(MatIndex::new(1, 1)), 44);
}

#[test]
fn index_value_types_keep_their_fields() {
    let r = RowIndex::new(-2);
    let c = ColIndex::new(5);
    assert_eq!(r.val(), -2);
    assert_eq!(c.val(), 5);
    let i = MatIndex::from(r, c);
    assert_eq!(i.row(), -2);
    assert_eq!(i.col(), 5);
    assert_eq!(MatIndex::new(-2, 5), i);
}

#[test]
fn index_equality_does_not_normalize() {
    assert_ne!(MatIndex::new(0, -1), MatIndex::new(0, 2));
}

#[test]
fn dimension_reports_extents_and_length() {
    let d = Dimension::new(4, 5);
    assert_eq!(d.len(), 20);
    let m: Matrix<i32> = Matrix::with_init(d, 0);
    assert_eq!(m.dimension(), d);
    assert_eq!(m.width(), 5);
    assert_eq!(m.height(), 4);
    let empty = Dimension::new(0, 7);
    assert_eq!(empty.len(), 0);
}

#[test]
fn strided_walker_yields_inclusive_progression() {
    let mut it = math_rust::IterMut::new(2, 10, 4);
    let mut seen = Vec::new();
    while let Some(off) = it.next() {
        seen.push(off);
    }
    assert_eq!(seen, vec![2, 6, 10]);
    assert!(it.next().is_none());
}

#[test]
fn content_constructors_fill_and_adopt() {
    let filled = Matrix::with_content(
        Dimension::new(1, 3),
        MatrixContent::new_with_init(3, 9),
    );
    for c in 0..3 {
        assert_eq!(filled.index(MatIndex::new(0, c)), 9);
    }
    let zeroed: Matrix<i32> = Matrix::with_content(Dimension::new(2, 1), MatrixContent::new(2));
    assert_eq!(zeroed.index(MatIndex::new(0, 0)), 0);
    assert_eq!(zeroed.index(MatIndex::new(1, 0)), 0);
}

#[test]
fn empty_matrix_scalar_multiply_is_empty() {
    let m: Matrix<i32> = Matrix::with_init(Dimension::new(0, 3), 0);
    let r = m.mul(5);
    assert_eq!(r.size(), 0);
}