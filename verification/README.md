# bangrs

A music player's core, verified with Verus.

- `src/` is the library: the track library and its id index, the playback
  state machine, the view model and how engine events change it, sample-rate
  negotiation with the output device, the audio engine's decisions (a state
  machine from state and event to next state and actions), how a folder
  scan becomes numbered tracks, and what a pick of the library folder leads
  to. Each public function carries a contract; the laws of the library are
  public proof functions next to the code they speak of.
- `app/` is the program around it: the terminal front end, the output
  device (cpal), decoding (symphonia), tag reading (lofty), walking folders
  (walkdir), the folder dialog (rfd) and the threads that tie them together.
- `tests/` holds the tests, run against the compiled library.
