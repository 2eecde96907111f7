use goupil::error::Error;
use goupil::records::{sector_repr, GeometryRecords, SectorRecord};
use goupil::status::{status_name, TransportStatus};
use goupil::states::{state_defaults, states_shape, StateDefaults};
use goupil::array::ShapeArg;
use goupil::topography::map_shape;

fn records() -> GeometryRecords<&'static str, u32> {
    let sectors = vec![
        SectorRecord { material: 0, density: 10, description: Some("rock".to_string()) },
        SectorRecord { material: 1, density: 20, description: None },
    ];
    GeometryRecords::new(vec!["Rock", "Water"], sectors).unwrap()
}

#[test]
fn update_material_then_read() {
    let mut g = records();
    assert_eq!(g.update_material(1, "Ice"), Ok(()));
    assert_eq!(g.material(1), Some(&"Ice"));
    assert_eq!(g.material(0), Some(&"Rock"));
    assert_eq!(g.update_material(2, "Air"), Err(Error::InvalidArgument));
    assert_eq!(g.material(2), None);
}

#[test]
fn update_sector_fields() {
    let mut g = records();
    assert_eq!(g.update_sector(0, Some(1), None), Ok(()));
    assert_eq!(g.sectors[0].material, 1);
    assert_eq!(g.sectors[0].density, 10);
    assert_eq!(g.sectors[0].description.as_deref(), Some("rock"));
    assert_eq!(g.update_sector(1, None, Some(30)), Ok(()));
    assert_eq!(g.sectors[1].material, 1);
    assert_eq!(g.sectors[1].density, 30);
    assert_eq!(g.update_sector(2, None, None), Err(Error::InvalidArgument));
    assert_eq!(g.update_sector(0, Some(2), Some(5)), Err(Error::InvalidArgument));
    assert_eq!(g.sectors[0].density, 10);
}

#[test]
fn records_reject_dangling_material() {
    let sectors = vec![SectorRecord { material: 3, density: 1u32, description: None }];
    assert_eq!(GeometryRecords::new(vec!["Rock"], sectors).unwrap_err(), Error::InvalidArgument);
}

#[test]
fn status_codes() {
    let all = [
        TransportStatus::Absorbed,
        TransportStatus::Boundary,
        TransportStatus::EnergyConstraint,
        TransportStatus::EnergyMax,
        TransportStatus::EnergyMin,
        TransportStatus::Exit,
        TransportStatus::LengthMax,
    ];
    for (i, s) in all.iter().enumerate() {
        assert_eq!(s.code(), i as i32);
        assert_eq!(TransportStatus::from_code(i as i32), Ok(*s));
    }
    assert_eq!(TransportStatus::from_code(7), Err(Error::Domain));
    assert_eq!(TransportStatus::from_code(-1), Err(Error::Domain));
    assert_eq!(status_name(5), Ok("Exit"));
    assert_eq!(status_name(2), Ok("EnergyConstraint"));
    assert_eq!(status_name(9), Err(Error::Domain));
}

#[test]
fn photon_state_defaults() {
    let none: Vec<String> = vec![];
    assert_eq!(
        state_defaults(&none),
        StateDefaults { direction: true, energy: true, weight: true }
    );
    let keys = vec!["energy".to_string(), "position".to_string(), "weight".to_string()];
    assert_eq!(
        state_defaults(&keys),
        StateDefaults { direction: true, energy: false, weight: false }
    );
    assert_eq!(states_shape(None), vec![0]);
    assert_eq!(states_shape(Some(ShapeArg::Scalar(3))), vec![3]);
    assert_eq!(states_shape(Some(ShapeArg::Vector(vec![2, 2]))), vec![2, 2]);
}

#[test]
fn topography_map_shapes() {
    let z = vec![3, 4];
    assert_eq!(map_shape(Some(&z), None), Ok([3, 4]));
    assert_eq!(map_shape(Some(&z), Some([4, 3])), Ok([4, 3]));
    assert_eq!(map_shape(Some(&z), Some([2, 2])), Err(Error::InvalidArgument));
    assert_eq!(map_shape(None, Some([2, 5])), Ok([2, 5]));
    assert_eq!(map_shape(None, None), Err(Error::InvalidArgument));
    let flat = vec![12];
    assert_eq!(map_shape(Some(&flat), None), Err(Error::InvalidArgument));
    assert_eq!(map_shape(None, Some([0, 5])), Err(Error::InvalidArgument));
}

#[test]
fn geometry_sector_text() {
    assert_eq!(
        sector_repr("Material('Rock')", "1.0", None),
        "GeometrySector(Material('Rock'), 1.0)"
    );
    assert_eq!(
        sector_repr("Material('Rock')", "1.0", Some("ground")),
        "GeometrySector(Material('Rock'), 1.0, 'ground')"
    );
}
