use rhino2d::error::ErrorKind;
use rhino2d::io::param::InterpolateMode;
use rhino2d::io::param::Param;
use rhino2d::io::param::ParamBinding as BindingDesc;
use rhino2d::io::param::ParamValue;
use rhino2d::io::Uuid;
use rhino2d::param::Interp;
use rhino2d::param::ParamAxis;
use rhino2d::param::ParamBinding;
use rhino2d::param::ParamHandle;
use rhino2d::param::ParamHandle1D;
use rhino2d::param::ParamHandle2D;
use rhino2d::param::ParamMap;
use rhino2d::param::ParamTarget;

fn bits(values: &[f32]) -> Vec<u32> {
    values.iter().map(|v| v.to_bits()).collect()
}

fn described(min: f32, max: f32, points: &[f32]) -> Param {
    Param::new(
        Uuid::new(1),
        "test".to_string(),
        false,
        [min.to_bits(), 0.0f32.to_bits()],
        [max.to_bits(), 0.0f32.to_bits()],
        [0.0f32.to_bits(), 0.0f32.to_bits()],
        vec![bits(points), bits(&[0.0])],
    )
}

fn axis(min: f32, max: f32, points: &[f32]) -> ParamAxis {
    ParamAxis::lower(&described(min, max, points), 0).ok().unwrap()
}

/// The arithmetic around the bucket search, as a caller of the library does it.
fn interp(axis: &ParamAxis, value: f32) -> Interp {
    let min = f32::from_bits(axis.min());
    let max = f32::from_bits(axis.max());
    let clamped = f32::from_bits(axis.clamp(value.to_bits()));
    let value = (clamped - min) / (max - min);
    let (smaller, larger) = axis.locate(value.to_bits());
    let points = axis.axis_points();
    let larger_val = f32::from_bits(points[larger]);
    let smaller_val = f32::from_bits(points[smaller]);
    let dist = (value - smaller_val) / (larger_val - smaller_val);
    Interp { start_index: smaller, dist: dist.to_bits() }
}

/// The blend of the cells that a place lies between.
fn lookup(place: &Interp, values: &[f32]) -> f32 {
    let cells = bits(values);
    let dist = f32::from_bits(place.dist);
    match place.cells(&cells) {
        (start, Some(end)) => f32::from_bits(start) * (1.0 - dist) + f32::from_bits(end) * dist,
        (start, None) => f32::from_bits(start),
    }
}

fn value(binding: &ParamBinding) -> f32 {
    let (x, y) = match binding.param() {
        ParamHandle::Param1D(p) => {
            (interp(p.axis(), f32::from_bits(p.get())), binding.fixed_second_place().unwrap())
        }
        ParamHandle::Param2D(p) => {
            let [x, y] = p.get();
            (interp(p.x_axis(), f32::from_bits(x)), interp(p.y_axis(), f32::from_bits(y)))
        }
    };
    let row = |cells: &[u32]| -> f32 {
        let dist = f32::from_bits(x.dist);
        match x.cells(cells) {
            (start, Some(end)) => f32::from_bits(start) * (1.0 - dist) + f32::from_bits(end) * dist,
            (start, None) => f32::from_bits(start),
        }
    };
    let dist = f32::from_bits(y.dist);
    match binding.rows(&y) {
        (start, Some(end)) => row(start) * (1.0 - dist) + row(end) * dist,
        (start, None) => row(start),
    }
}

fn place(start_index: usize, dist: f32) -> Interp {
    Interp { start_index, dist: dist.to_bits() }
}

#[test]
fn test_axis_interp() {
    // Axis points at -1.0, 0.0, and 1.0
    let axis = axis(-1.0, 1.0, &[0.0, 0.5, 1.0]);
    assert_eq!(interp(&axis, -100.0), place(0, 0.0));
    assert_eq!(interp(&axis, -1.000001), place(0, 0.0));
    assert_eq!(interp(&axis, -1.0), place(0, 0.0));
    assert_eq!(interp(&axis, -0.5), place(0, 0.5));
    assert_eq!(interp(&axis, 0.0), place(1, 0.0));
    assert_eq!(interp(&axis, 0.5), place(1, 0.5));
    assert_eq!(interp(&axis, 1.0), place(1, 1.0));
    assert_eq!(interp(&axis, 1.0000001), place(1, 1.0));
    assert_eq!(interp(&axis, 100.0), place(1, 1.0));
}

#[test]
fn test_interp_lookup() {
    assert_eq!(lookup(&place(0, 0.0), &[0.0]), 0.0);
    assert_eq!(lookup(&place(0, 0.5), &[0.0, 1.0]), 0.5);
    assert_eq!(lookup(&place(0, 1.0), &[0.0, 1.0]), 1.0);
    assert_eq!(lookup(&place(1, 0.0), &[0.0, 1.0]), 1.0);
    assert_eq!(lookup(&place(1, 0.5), &[0.0, 1.0, 2.0]), 1.5);
    assert_eq!(lookup(&place(1, 0.25), &[0.0, 1.0, 2.0]), 1.25);
    assert_eq!(lookup(&place(1, 0.75), &[0.0, 1.0, 2.0]), 1.75);
}

#[test]
fn clamp_brings_values_into_the_range() {
    let axis = axis(-1.0, 1.0, &[0.0, 0.5, 1.0]);
    let clamp = |v: f32| f32::from_bits(axis.clamp(v.to_bits()));
    assert_eq!(clamp(-100.0), -1.0);
    assert_eq!(clamp(-1.0), -1.0);
    assert_eq!(clamp(-0.25), -0.25);
    assert_eq!(clamp(1.0), 1.0);
    assert_eq!(clamp(7.5), 1.0);
    assert_eq!(clamp(f32::INFINITY), 1.0);
    assert_eq!(clamp(f32::NEG_INFINITY), -1.0);
    // A NaN is taken for the maximum, as the smaller of a NaN and a number is the number.
    assert_eq!(clamp(f32::NAN), 1.0);
}

#[test]
fn locate_finds_the_first_breakpoint_above() {
    let axis = axis(0.0, 1.0, &[0.0, 0.25, 0.5, 1.0]);
    let locate = |v: f32| axis.locate(v.to_bits());
    assert_eq!(locate(0.0), (0, 1));
    assert_eq!(locate(0.1), (0, 1));
    assert_eq!(locate(0.25), (1, 2));
    assert_eq!(locate(0.3), (1, 2));
    assert_eq!(locate(0.5), (2, 3));
    assert_eq!(locate(0.99), (2, 3));
    assert_eq!(locate(1.0), (2, 3));
    assert_eq!(locate(2.0), (2, 3));
    assert_eq!(locate(f32::NAN), (2, 3));
    // Below the first breakpoint both ends are the first breakpoint.
    assert_eq!(locate(-0.5), (0, 0));
}

#[test]
fn locate_never_steps_back_as_the_value_grows() {
    let axis = axis(0.0, 1.0, &[0.0, 0.25, 0.5, 0.5, 1.0]);
    let mut last = 0;
    for step in 0..=200 {
        let v = step as f32 / 200.0;
        let (_, upper) = axis.locate(v.to_bits());
        assert!(upper >= last, "{v}");
        last = upper;
    }
}

#[test]
fn interp_at_the_ends_of_the_range() {
    let axis = axis(2.0, 6.0, &[0.0, 0.5, 1.0]);
    assert_eq!(interp(&axis, 2.0), place(0, 0.0));
    assert_eq!(interp(&axis, 6.0), place(1, 1.0));
    assert_eq!(interp(&axis, 1.0), interp(&axis, 2.0));
    assert_eq!(interp(&axis, 9.0), interp(&axis, 6.0));
    assert_eq!(interp(&axis, 3.0), place(0, 0.5));
}

#[test]
fn axis_without_points_is_invalid() {
    let e = ParamAxis::lower(&described(0.0, 1.0, &[]), 0).err().unwrap();
    assert_eq!(e.kind(), ErrorKind::Invalid);
    assert_eq!(e.message(), "invalid model: parameter 'test' is invalid: no axis points");
}

#[test]
fn axis_without_a_list_of_points_is_invalid() {
    let param = Param::new(Uuid::new(1), "p".to_string(), false, [0, 0], [0, 0], [0, 0], vec![]);
    assert_eq!(ParamAxis::lower(&param, 0).err().unwrap().kind(), ErrorKind::Invalid);
    assert_eq!(ParamAxis::lower(&param, 1).err().unwrap().kind(), ErrorKind::Invalid);
}

#[test]
fn axis_must_start_at_zero_and_end_at_one() {
    assert_eq!(
        ParamAxis::lower(&described(0.0, 1.0, &[0.1, 1.0]), 0).err().unwrap().kind(),
        ErrorKind::Invalid
    );
    assert_eq!(
        ParamAxis::lower(&described(0.0, 1.0, &[0.0, 0.9]), 0).err().unwrap().kind(),
        ErrorKind::Invalid
    );
    assert_eq!(
        ParamAxis::lower(&described(0.0, 1.0, &[0.0]), 0).err().unwrap().kind(),
        ErrorKind::Invalid
    );
    assert_eq!(
        ParamAxis::lower(&described(0.0, 1.0, &[f32::NAN, 1.0]), 0).err().unwrap().kind(),
        ErrorKind::Invalid
    );
    // The two zeros are equal as numbers.
    assert!(ParamAxis::lower(&described(0.0, 1.0, &[-0.0, 1.0]), 0).is_ok());
}

#[test]
fn axis_points_must_ascend() {
    let e = ParamAxis::lower(&described(0.0, 1.0, &[0.0, 0.75, 0.5, 1.0]), 0).err().unwrap();
    assert_eq!(e.kind(), ErrorKind::Invalid);
    assert_eq!(
        e.message(),
        "invalid model: axis points of parameter 'test' are not in sorted order"
    );
    // By the total order a NaN stands after every number, and -0.0 before +0.0.
    assert_eq!(
        ParamAxis::lower(&described(0.0, 1.0, &[0.0, f32::NAN, 1.0]), 0).err().unwrap().kind(),
        ErrorKind::Invalid
    );
    assert_eq!(
        ParamAxis::lower(&described(0.0, 1.0, &[0.0, -0.0, 1.0]), 0).err().unwrap().kind(),
        ErrorKind::Invalid
    );
    assert!(ParamAxis::lower(&described(0.0, 1.0, &[0.0, 0.5, 0.5, 1.0]), 0).is_ok());
}

#[test]
fn axis_minimum_must_not_exceed_the_maximum() {
    let e = ParamAxis::lower(&described(2.0, 1.0, &[0.0, 1.0]), 0).err().unwrap();
    assert_eq!(e.kind(), ErrorKind::Invalid);
    assert!(ParamAxis::lower(&described(1.0, 1.0, &[0.0, 1.0]), 0).is_ok());
    let ok = ParamAxis::lower(&described(-3.0, 4.0, &[0.0, 0.5, 1.0]), 0).ok().unwrap();
    assert_eq!(ok.min(), (-3.0f32).to_bits());
    assert_eq!(ok.max(), 4.0f32.to_bits());
    assert_eq!(ok.axis_points(), bits(&[0.0, 0.5, 1.0]).as_slice());
}

#[test]
fn target_names() {
    let ok = |s: &str| ParamTarget::from_str(s).ok().unwrap();
    assert_eq!(ok("zSort"), ParamTarget::ZSort);
    assert_eq!(ok("transform.t.x"), ParamTarget::TranslationX);
    assert_eq!(ok("transform.t.y"), ParamTarget::TranslationY);
    assert_eq!(ok("transform.t.z"), ParamTarget::TranslationZ);
    assert_eq!(ok("transform.r.x"), ParamTarget::RotationX);
    assert_eq!(ok("transform.r.y"), ParamTarget::RotationY);
    assert_eq!(ok("transform.r.z"), ParamTarget::RotationZ);
    assert_eq!(ok("transform.s.x"), ParamTarget::ScaleX);
    assert_eq!(ok("transform.s.y"), ParamTarget::ScaleY);
}

#[test]
fn unknown_target_name_is_unsupported() {
    for name in ["deform", "", "zsort", "transform.s.z", "transform.t.x "] {
        let e = ParamTarget::from_str(name).err().unwrap();
        assert_eq!(e.kind(), ErrorKind::Unsupported, "{name}");
    }
    let e = ParamTarget::from_str("deform").err().unwrap();
    assert_eq!(e.message(), "model uses unsupported feature: parameter target 'deform'");
    assert_eq!(e.to_string(), "model uses unsupported feature: parameter target 'deform'");
}

fn scalar_grid(rows: &[&[f32]]) -> Vec<Vec<ParamValue>> {
    rows.iter().map(|row| row.iter().map(|v| ParamValue::Scalar(v.to_bits())).collect()).collect()
}

fn binding(node: u64, name: &str, rows: &[&[f32]], mode: InterpolateMode) -> BindingDesc {
    let set = rows.iter().map(|row| vec![true; row.len()]).collect();
    BindingDesc::new(Uuid::new(node), name.to_string(), scalar_grid(rows), set, mode)
}

fn param_1d(default: f32, points: &[f32], bindings: Vec<BindingDesc>) -> Param {
    let mut p = Param::new(
        Uuid::new(100),
        "one".to_string(),
        false,
        [0.0f32.to_bits(), 0],
        [1.0f32.to_bits(), 0],
        [default.to_bits(), 0],
        vec![bits(points), bits(&[0.0])],
    );
    for b in bindings {
        p.push_binding(b);
    }
    p
}

#[test]
fn grid_lookup_at_a_breakpoint_is_exact() {
    let lin = InterpolateMode::Linear;
    let param = param_1d(0.0, &[0.0, 1.0], vec![binding(7, "zSort", &[&[0.0, 1.0]], lin)]);
    let mut table = ParamMap::lower(&[param]).ok().unwrap();
    let bound = table.take_params_affecting_node(Uuid::new(7));
    assert_eq!(bound.len(), 1);
    assert_eq!(bound[0].target(), ParamTarget::ZSort);
    assert_eq!(value(&bound[0]), 0.0);
    let handle = match bound[0].param() {
        ParamHandle::Param1D(p) => p,
        ParamHandle::Param2D(_) => unreachable!(),
    };
    handle.set(1.0f32.to_bits());
    assert_eq!(value(&bound[0]), 1.0);
    handle.set(0.25f32.to_bits());
    assert_eq!(value(&bound[0]), 0.25);
}

#[test]
fn bilinear_value_of_a_two_axis_binding() {
    let mut param = Param::new(
        Uuid::new(5),
        "two".to_string(),
        true,
        [0.0f32.to_bits(), 0.0f32.to_bits()],
        [1.0f32.to_bits(), 1.0f32.to_bits()],
        [0.5f32.to_bits(), 0.5f32.to_bits()],
        vec![bits(&[0.0, 1.0]), bits(&[0.0, 1.0])],
    );
    param.push_binding(binding(
        3,
        "transform.r.z",
        &[&[0.0, 10.0], &[20.0, 40.0]],
        InterpolateMode::Linear,
    ));
    let mut table = ParamMap::lower(&[param]).ok().unwrap();
    let bound = table.take_params_affecting_node(Uuid::new(3));
    assert_eq!(bound[0].target(), ParamTarget::RotationZ);
    // (0 + 10) / 2 = 5 along the first row, (20 + 40) / 2 = 30 along the second, 17.5 between.
    assert_eq!(value(&bound[0]), 17.5);
    let handle = match bound[0].param() {
        ParamHandle::Param2D(p) => p,
        ParamHandle::Param1D(_) => unreachable!(),
    };
    handle.set(1.0f32.to_bits(), 0.0f32.to_bits());
    assert_eq!(value(&bound[0]), 10.0);
    handle.set(0.0f32.to_bits(), 1.0f32.to_bits());
    assert_eq!(value(&bound[0]), 20.0);
    handle.set(1.0f32.to_bits(), 1.0f32.to_bits());
    assert_eq!(value(&bound[0]), 40.0);
    assert_eq!(handle.get(), [1.0f32.to_bits(), 1.0f32.to_bits()]);
}

#[test]
fn table_groups_bindings_by_node_in_order() {
    let lin = InterpolateMode::Linear;
    let first = param_1d(
        0.0,
        &[0.0, 1.0],
        vec![
            binding(1, "zSort", &[&[0.0, 1.0]], lin),
            binding(2, "transform.t.x", &[&[0.0, 2.0]], lin),
            binding(1, "transform.t.y", &[&[0.0, 3.0]], lin),
        ],
    );
    let second = param_1d(0.0, &[0.0, 1.0], vec![binding(1, "transform.s.x", &[&[0.0, 4.0]], lin)]);
    let mut table = ParamMap::lower(&[first, second]).ok().unwrap();
    let one = table.take_params_affecting_node(Uuid::new(1));
    let targets: Vec<ParamTarget> = one.iter().map(|b| b.target()).collect();
    assert_eq!(targets, vec![ParamTarget::ZSort, ParamTarget::TranslationY, ParamTarget::ScaleX]);
    assert_eq!(one[1].values(), vec![bits(&[0.0, 3.0])].as_slice());
    // Taken bindings are gone; those of other nodes stay.
    assert!(table.take_params_affecting_node(Uuid::new(1)).is_empty());
    let two = table.take_params_affecting_node(Uuid::new(2));
    assert_eq!(two.len(), 1);
    assert_eq!(two[0].target(), ParamTarget::TranslationX);
    assert!(table.take_params_affecting_node(Uuid::new(3)).is_empty());
}

#[test]
fn bindings_of_one_parameter_share_its_value() {
    let lin = InterpolateMode::Linear;
    let param = param_1d(
        0.0,
        &[0.0, 1.0],
        vec![
            binding(1, "zSort", &[&[0.0, 1.0]], lin),
            binding(2, "transform.t.x", &[&[0.0, 8.0]], lin),
        ],
    );
    let mut table = ParamMap::lower(&[param]).ok().unwrap();
    let one = table.take_params_affecting_node(Uuid::new(1));
    let two = table.take_params_affecting_node(Uuid::new(2));
    match one[0].param() {
        ParamHandle::Param1D(p) => p.set(0.5f32.to_bits()),
        ParamHandle::Param2D(_) => unreachable!(),
    }
    assert_eq!(value(&one[0]), 0.5);
    assert_eq!(value(&two[0]), 4.0);
}

#[test]
fn handle_starts_at_the_described_default() {
    let lin = InterpolateMode::Linear;
    let param = param_1d(0.75, &[0.0, 1.0], vec![binding(1, "zSort", &[&[0.0, 1.0]], lin)]);
    let mut table = ParamMap::lower(&[param]).ok().unwrap();
    let one = table.take_params_affecting_node(Uuid::new(1));
    match one[0].param() {
        ParamHandle::Param1D(p) => assert_eq!(p.get(), 0.75f32.to_bits()),
        ParamHandle::Param2D(_) => unreachable!(),
    }
}

#[test]
fn duplicate_handles_lead_to_one_value() {
    let a = ParamHandle1D::new(axis(0.0, 1.0, &[0.0, 1.0]), 0);
    let b = a.duplicate();
    a.set(0x1234);
    assert_eq!(b.get(), 0x1234);
    let c = ParamHandle2D::new(axis(0.0, 1.0, &[0.0, 1.0]), axis(0.0, 1.0, &[0.0, 1.0]), 1, 2);
    let d = ParamHandle::Param2D(c.duplicate()).duplicate();
    c.set(3, 4);
    match d {
        ParamHandle::Param2D(d) => assert_eq!(d.get(), [3, 4]),
        ParamHandle::Param1D(_) => unreachable!(),
    }
}

#[test]
fn nearest_interpolation_is_unsupported() {
    let param = param_1d(
        0.0,
        &[0.0, 1.0],
        vec![binding(1, "zSort", &[&[0.0, 1.0]], InterpolateMode::Nearest)],
    );
    let e = ParamMap::lower(&[param]).err().unwrap();
    assert_eq!(e.kind(), ErrorKind::Unsupported);
    assert_eq!(
        e.message(),
        "model uses unsupported feature: parameter binding interpolation mode 'Nearest'"
    );
}

#[test]
fn deformation_is_unsupported() {
    let deform = BindingDesc::new(
        Uuid::new(1),
        "zSort".to_string(),
        vec![vec![ParamValue::Scalar(0), ParamValue::Deformation(vec![[0, 0]])]],
        vec![vec![true, true]],
        InterpolateMode::Linear,
    );
    let e = ParamMap::lower(&[param_1d(0.0, &[0.0, 1.0], vec![deform])]).err().unwrap();
    assert_eq!(e.kind(), ErrorKind::Unsupported);
    assert_eq!(e.message(), "model uses unsupported feature: mesh deformation");
}

#[test]
fn unknown_target_in_a_binding_is_unsupported() {
    let lin = InterpolateMode::Linear;
    let param = param_1d(0.0, &[0.0, 1.0], vec![binding(1, "deform", &[&[0.0, 1.0]], lin)]);
    assert_eq!(ParamMap::lower(&[param]).err().unwrap().kind(), ErrorKind::Unsupported);
}

#[test]
fn grid_of_any_size_is_accepted() {
    let lin = InterpolateMode::Linear;
    for rows in [
        vec![],
        vec![vec![0.0f32]],
        vec![vec![0.0, 1.0, 2.0]],
        vec![vec![0.0, 1.0], vec![0.0, 1.0]],
    ] {
        let rows: Vec<&[f32]> = rows.iter().map(|r| r.as_slice()).collect();
        let param = param_1d(0.0, &[0.0, 1.0], vec![binding(1, "zSort", &rows, lin)]);
        let mut table = ParamMap::lower(&[param]).ok().unwrap();
        let bound = table.take_params_affecting_node(Uuid::new(1));
        assert_eq!(bound.len(), 1);
        assert_eq!(bound[0].values().len(), rows.len());
    }
}

#[test]
fn one_axis_binding_reads_its_first_row_alone() {
    let lin = InterpolateMode::Linear;
    let rows: [&[f32]; 3] = [&[2.0, 4.0], &[100.0, 200.0], &[-7.0]];
    let param = param_1d(0.5, &[0.0, 1.0], vec![binding(1, "zSort", &rows, lin)]);
    let mut table = ParamMap::lower(&[param]).ok().unwrap();
    let bound = table.take_params_affecting_node(Uuid::new(1));
    assert_eq!(bound[0].fixed_second_place(), Some(place(0, 0.0)));
    assert_eq!(value(&bound[0]), 3.0);
    let handle = match bound[0].param() {
        ParamHandle::Param1D(p) => p,
        ParamHandle::Param2D(_) => unreachable!(),
    };
    handle.set(0.0f32.to_bits());
    assert_eq!(value(&bound[0]), 2.0);
    handle.set(1.0f32.to_bits());
    assert_eq!(value(&bound[0]), 4.0);
}

#[test]
fn two_axis_binding_has_no_fixed_second_place() {
    let x = axis(0.0, 1.0, &[0.0, 1.0]);
    let y = axis(0.0, 1.0, &[0.0, 1.0]);
    let handle = ParamHandle::Param2D(ParamHandle2D::new(x, y, 0, 0));
    let bound = ParamBinding::new(handle, ParamTarget::ZSort, vec![vec![0, 0], vec![0, 0]]);
    assert_eq!(bound.fixed_second_place(), None);
    let one = ParamHandle::Param1D(ParamHandle1D::new(axis(0.0, 1.0, &[0.0, 1.0]), 0));
    let bound = ParamBinding::new(one, ParamTarget::ZSort, vec![]);
    assert_eq!(bound.fixed_second_place(), Some(Interp::origin()));
}

#[test]
fn unsupported_binding_after_one_with_an_odd_grid() {
    let lin = InterpolateMode::Linear;
    let odd = || binding(1, "zSort", &[&[0.0, 1.0], &[0.0, 1.0]], lin);
    let nearest = binding(1, "zSort", &[&[0.0, 1.0]], InterpolateMode::Nearest);
    let param = param_1d(0.0, &[0.0, 1.0], vec![odd(), nearest]);
    assert_eq!(ParamMap::lower(&[param]).err().unwrap().kind(), ErrorKind::Unsupported);
    let deform = BindingDesc::new(
        Uuid::new(1),
        "zSort".to_string(),
        vec![vec![ParamValue::Deformation(vec![[0, 0]])]],
        vec![vec![true]],
        lin,
    );
    let param = param_1d(0.0, &[0.0, 1.0], vec![odd(), deform]);
    assert_eq!(ParamMap::lower(&[param]).err().unwrap().kind(), ErrorKind::Unsupported);
}

#[test]
fn first_fault_decides_the_error() {
    let lin = InterpolateMode::Linear;
    // The axis is looked at before the bindings.
    let bad_axis = param_1d(
        0.0,
        &[0.0, 1.0, 0.5],
        vec![binding(1, "zSort", &[&[0.0, 1.0, 2.0]], InterpolateMode::Nearest)],
    );
    assert_eq!(ParamMap::lower(&[bad_axis]).err().unwrap().kind(), ErrorKind::Invalid);
    // Of two faulty parameters the first decides.
    let unsupported = param_1d(0.0, &[0.0, 1.0], vec![binding(1, "nope", &[&[0.0, 1.0]], lin)]);
    let invalid = param_1d(0.0, &[0.5, 1.0], vec![]);
    assert_eq!(
        ParamMap::lower(&[unsupported, invalid]).err().unwrap().kind(),
        ErrorKind::Unsupported
    );
    // The second axis counts only for a parameter with two axes.
    let one_axis = param_1d(0.0, &[0.0, 1.0], vec![]);
    assert!(ParamMap::lower(&[one_axis]).is_ok());
    let mut two_axes = param_1d(0.0, &[0.0, 1.0], vec![]);
    two_axes.set_vec2(true);
    assert_eq!(ParamMap::lower(&[two_axes]).err().unwrap().kind(), ErrorKind::Invalid);
}

#[test]
fn empty_description_gives_an_empty_table() {
    let mut table = ParamMap::lower(&[]).ok().unwrap();
    assert!(table.take_params_affecting_node(Uuid::new(0)).is_empty());
}

#[test]
fn rows_of_a_binding() {
    let mut param = Param::new(
        Uuid::new(5),
        "two".to_string(),
        true,
        [0, 0],
        [ONE_BITS, ONE_BITS],
        [0, 0],
        vec![bits(&[0.0, 1.0]), bits(&[0.0, 0.5, 1.0])],
    );
    param.push_binding(binding(
        3,
        "zSort",
        &[&[1.0, 2.0], &[3.0, 4.0], &[5.0, 6.0]],
        InterpolateMode::Linear,
    ));
    let mut table = ParamMap::lower(&[param]).ok().unwrap();
    let bound = table.take_params_affecting_node(Uuid::new(3));
    let b = &bound[0];
    assert_eq!(b.rows(&place(0, 0.0)), (bits(&[1.0, 2.0]).as_slice(), None));
    let second = bits(&[3.0, 4.0]);
    assert_eq!(b.rows(&place(0, 0.5)), (bits(&[1.0, 2.0]).as_slice(), Some(second.as_slice())));
    // After the last row there is no further row: the last one is read again.
    let last = bits(&[5.0, 6.0]);
    assert_eq!(b.rows(&place(2, 1.0)), (last.as_slice(), Some(last.as_slice())));
    // A negative distance or a NaN does not blend.
    assert_eq!(b.rows(&place(1, -0.5)).1, None);
    assert_eq!(b.rows(&place(1, f32::NAN)).1, None);
}

const ONE_BITS: u32 = 0x3f80_0000;

#[test]
fn cells_of_a_place() {
    let cells = bits(&[1.0, 2.0, 3.0]);
    assert_eq!(place(0, 0.0).cells(&cells), (ONE_BITS, None));
    assert_eq!(place(1, 0.5).cells(&cells), (2.0f32.to_bits(), Some(3.0f32.to_bits())));
    assert_eq!(place(2, 0.0).cells(&cells), (3.0f32.to_bits(), None));
    assert_eq!(place(2, -0.0).cells(&cells), (3.0f32.to_bits(), None));
    assert!(place(0, 0.25).is_blend());
    assert!(!place(0, 0.0).is_blend());
    assert_eq!(Interp::origin(), place(0, 0.0));
}

#[test]
fn target_names_parse() {
    assert_eq!("transform.r.y".parse::<ParamTarget>().ok(), Some(ParamTarget::RotationY));
    assert_eq!("transform".parse::<ParamTarget>().err().map(|e| e.kind()), Some(ErrorKind::Unsupported));
}
