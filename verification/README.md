# flicks

Changes your avatar on Discord and Telegram to a picture taken from a
directory. Each run picks a picture at random among the `.jpg` and `.png`
files of `BASE_PATH`, moves it to `USED_IMAGES_PATH`, and sets it as the
avatar on each service in turn.

- `src/` is the verified library: path handling and the choice of pictures,
  the storage and its take / put-back moves, the pipeline run that calls the
  services one after the other, the Discord request and headers, the Telegram
  upload in parts and the sign-in steps. Each public function states its
  behaviour in `requires` / `ensures`, proved by Verus.
- `app/` is the program around it: the file system, the HTTP and MTProto
  clients, and the loops that perform what the library's machines decide.
- `tests/` runs the library on concrete values.

Settings come from the environment: `DISCORD_ACCESS_TOKEN`,
`DISCORD_SUPER_PROPERTIES`, `USER_AGENT`, `BASE_PATH`, `USED_IMAGES_PATH`,
`APP_ID`, `API_HASH`, `SESSION_FILE`, `PHONE`, `PASSWORD`.
