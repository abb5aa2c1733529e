# env_sense

Driver of an environment and motion sensing module: a BME280 (temperature,
humidity, pressure) and a LIS3DH (acceleration) on one bit-banged I2C bus, and
an LED.

- `src/` is the driver's logic, verified with Verus. Every exchange with the
  outside is a `Procedure`: `progress` says what it wants done next, `reply`
  takes the outcome. What it wants is specified as a function of what it was
  given at its start and the replies it has had (`Plan::plan`), and the
  functions named `law_...` state what holds of every course that a procedure
  can take.
- `app/` carries the procedures out on the real bus, timer and registry, and
  holds the BME280's floating-point compensation formulas.
- `tests/` runs the procedures on given replies.
