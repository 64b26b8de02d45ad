# self_balancing_robot2

Firmware logic of a two-wheeled self-balancing robot: an ADXL345
accelerometer and an ITG3200 gyroscope on a shared I2C bus, a stepper motor
on step/direction pins behind a TMC2209 driver configured over UART.

- `src/` is the verified library (Verus): register field encodings and sample
  decoding of both sensors, zero-rate calibration of the gyroscope, the
  sensor health state machine, stepper position and timing bookkeeping, and the
  TMC2209 configuration datagrams.
- `app/` holds the hardware side on `embedded-hal`/`embassy`: the I2C
  transfers, the output pins, the UART link, the floating-point attitude
  filter, calibration and drift correction, and the balancing tasks.
- `tests/` exercises the library on concrete values.
