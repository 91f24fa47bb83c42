use backgammon::{Cube, Error, Player};

#[test]
fn default_value() {
    let cube = Cube::default();
    assert_eq!(cube.value(), 1);
}

#[test]
fn set_value2() -> Result<(), Error> {
    let mut cube = Cube::default();
    cube.set(2)?;
    assert_eq!(cube.value(), 2);
    Ok(())
}

#[test]
fn set_value4() -> Result<(), Error> {
    let mut cube = Cube::default();
    cube.set(4)?;
    assert_eq!(cube.value(), 4);
    Ok(())
}

#[test]
fn set_value8() -> Result<(), Error> {
    let mut cube = Cube::default();
    cube.set(8)?;
    assert_eq!(cube.value(), 8);
    Ok(())
}

#[test]
fn set_value16() -> Result<(), Error> {
    let mut cube = Cube::default();
    cube.set(16)?;
    assert_eq!(cube.value(), 16);
    Ok(())
}

#[test]
fn set_invalidvalue() -> Result<(), Error> {
    let mut cube = Cube::default();
    assert!(cube.set(3).is_err());
    Ok(())
}

#[test]
fn owner() {
    let cube = Cube::default();
    assert_eq!(cube.owner(), Player::Nobody);
}

#[test]
fn owner1() {
    let mut cube = Cube::default();
    cube.set_owner(Player::Player0);
    assert_eq!(cube.owner(), Player::Player0);
}

#[test]
fn offer0() -> Result<(), Error> {
    let cube = Cube::default();
    let offer = cube.offer(Player::Player1)?;
    assert_eq!(offer, 2);
    Ok(())
}

#[test]
fn offer1() -> Result<(), Error> {
    let mut cube = Cube::default();
    cube.set(2)?;
    cube.set_owner(Player::Player0);
    let offer = cube.offer(Player::Player1)?;
    assert_eq!(cube.owner(), Player::Player0);
    assert_eq!(cube.value(), 2);
    assert_eq!(offer, 4);
    Ok(())
}

#[test]
fn set_large_powers_and_refusals() {
    let mut cube = Cube::default();
    assert_eq!(cube.set(32), Ok(()));
    assert_eq!(cube.value(), 32);
    assert_eq!(cube.set(1 << 63), Ok(()));
    assert_eq!(cube.value(), 1 << 63);
    assert_eq!(cube.set(0), Err(Error::CubeValueInvalid));
    assert_eq!(cube.set(6), Err(Error::CubeValueInvalid));
    assert_eq!(cube.set(u64::MAX), Err(Error::CubeValueInvalid));
    assert_eq!(cube.value(), 1 << 63);
    assert_eq!(cube.offer(Player::Player0), Err(Error::DoublingNotPermitted));
}

#[test]
fn cube_doubling_scenario() {
    let mut cube = Cube::default();
    assert_eq!(cube.value(), 1);
    assert_eq!(cube.owner(), Player::Nobody);
    let offered = cube.offer(Player::Player1).unwrap();
    assert_eq!(offered, 2);
    cube.set(offered).unwrap();
    cube.set_owner(Player::Player1);
    assert_eq!(cube.value(), 2);
    assert_eq!(cube.owner(), Player::Player1);
    assert_eq!(cube.offer(Player::Player1), Err(Error::DoublingNotPermitted));
    assert_eq!(cube.offer(Player::Player0), Ok(4));
}
