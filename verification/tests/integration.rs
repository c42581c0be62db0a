use embedded_hal::blocking::i2c::{Write, WriteRead};
use embedded_hal_mock::i2c::{Mock as I2cMock, Transaction as I2cTransaction};
use embedded_hal_mock::MockError;
use sd2405al::datetime::{datetime_from_registers, get_datetime, set_datetime, Date, DateTime, Time};
use sd2405al::interface::{Write as BusWrite, WriteRead as BusRead};
use sd2405al::Error;

fn send(i2c: &mut I2cMock, write: &BusWrite) -> Result<(), MockError> {
    i2c.write(write.address, &write.bytes)
}

fn fetch(i2c: &mut I2cMock, read: &BusRead) -> Result<Vec<u8>, MockError> {
    let mut buffer = vec![0u8; read.len];
    i2c.write_read(read.address, &[read.register], &mut buffer)?;
    Ok(buffer)
}

#[test]
fn can_create_and_destroy() {
    let i2c = I2cMock::new(&[]);

    let driver = sd2405al::Sd2405al::new(i2c);
    driver.destroy();
}

#[test]
fn destroy_hands_back_the_bus() {
    let expectations = [I2cTransaction::write(0x32, vec![0x12, 0x00])];
    let driver = sd2405al::Sd2405al::new(I2cMock::new(&expectations));
    let mut i2c = driver.destroy();
    i2c.write(0x32, &[0x12, 0x00]).unwrap();
    i2c.done();
}

#[test]
fn set_then_get_over_a_bus() {
    let expectations = [
        I2cTransaction::write(0x32, vec![0x10, 0x80]),
        I2cTransaction::write(0x32, vec![0x0F, 0x84]),
        I2cTransaction::write(0x32, vec![0x00, 0x59, 0x59, 0xA3, 0x03, 0x31, 0x12, 0x19]),
        I2cTransaction::write(0x32, vec![0x0F, 0x00, 0x00]),
        I2cTransaction::write(0x32, vec![0x12, 0x00]),
        I2cTransaction::write_read(
            0x32,
            vec![0x00],
            vec![0x59, 0x59, 0xA3, 0x03, 0x31, 0x12, 0x19],
        ),
    ];
    let mut driver = sd2405al::Sd2405al::new(I2cMock::new(&expectations));

    let now = DateTime {
        date: Date {
            year: 2019,
            month: 12,
            day: 31,
        },
        time: Time {
            hour: 23,
            minute: 59,
            second: 59,
        },
    };
    let mut sequence = set_datetime::<MockError>(&now).unwrap();
    let mut sent = 0;
    while let Some(write) = sequence.next_write() {
        let outcome = send(&mut driver.iface.i2c, write);
        sequence.advance(outcome).unwrap();
        sent += 1;
    }
    assert_eq!(5, sent);

    let reply = fetch(&mut driver.iface.i2c, &get_datetime()).unwrap();
    let registers: [u8; 7] = [
        reply[0], reply[1], reply[2], reply[3], reply[4], reply[5], reply[6],
    ];
    let later = datetime_from_registers(&registers);
    assert_eq!(2019, later.date.year);
    assert_eq!(12, later.date.month);
    assert_eq!(31, later.date.day);
    assert_eq!(23, later.time.hour);
    assert_eq!(59, later.time.minute);
    assert_eq!(59, later.time.second);

    driver.destroy().done();
}

#[test]
fn a_bus_failure_stops_the_sequence() {
    let failure = MockError::Io(std::io::ErrorKind::Other);
    let expectations = [
        I2cTransaction::write(0x32, vec![0x10, 0x80]),
        I2cTransaction::write(0x32, vec![0x0F, 0x84]).with_error(failure.clone()),
    ];
    let mut i2c = I2cMock::new(&expectations);

    let now = DateTime {
        date: Date {
            year: 2019,
            month: 12,
            day: 31,
        },
        time: Time {
            hour: 23,
            minute: 59,
            second: 59,
        },
    };
    let mut sequence = set_datetime::<MockError>(&now).unwrap();
    let mut result = Ok(());
    while let Some(write) = sequence.next_write() {
        let outcome = send(&mut i2c, write);
        result = sequence.advance(outcome);
    }
    match result {
        Err(Error::I2c(e)) => assert_eq!(failure, e),
        _ => panic!("the failure of the bus comes back"),
    }
    i2c.done();
}

#[test]
fn a_refused_datetime_reaches_no_bus() {
    let mut i2c = I2cMock::new(&[]);
    let early = DateTime {
        date: Date {
            year: 1999,
            month: 12,
            day: 31,
        },
        time: Time {
            hour: 23,
            minute: 59,
            second: 59,
        },
    };
    assert!(matches!(
        set_datetime::<MockError>(&early),
        Err(Error::InvalidInputData)
    ));
    let late = DateTime {
        date: Date {
            year: 2101,
            month: 1,
            day: 1,
        },
        time: Time {
            hour: 0,
            minute: 0,
            second: 0,
        },
    };
    assert!(matches!(
        set_datetime::<MockError>(&late),
        Err(Error::InvalidInputData)
    ));
    i2c.done();
}
