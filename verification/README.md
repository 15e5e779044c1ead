# tinylevel

A stupidly simple role-granting discord bot: members collect active minutes by
writing messages, and get a role once they have enough of them.

Stores data in sqlite, only needs a discord token and other basic config.

environment variables:

```dotenv
DISCORD_TOKEN=<your bot token>
ROLE_ID=<your activity role id>
GUILD_ID=<your guild id>
ACTIVITY_MINUTES=60
COOLDOWN_SECONDS=60
DATABASE_URL=<sqlite url>
```

## Layout

`src/` holds the rules of the bot, verified with Verus:

- `id`: snowflake ids, the keys of users in the database, and the second that a
  message id carries
- `text`: numbers as text
- `error`: what can go wrong, and how it is told
- `model`: the configuration, and the parts of Discord's events that are read
- `payload`: what is sent to Discord, put together by the builders of
  `twilight-util`
- `commands`: which commands are registered, and what their names stand for
- `interaction`: what a command asks of the store, and what is answered
- `activity`: which messages count, and when they earn the role
- `gateway`: what is done with each event of the gateway
- `store`: what messages and commands do to the stored rows, taken together

`app/` runs it: it talks to Discord and to the database, whose schema it holds.
