pub mod stepper;
